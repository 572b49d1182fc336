//! The mathematical model of the scan: what one step does in each lexical
//! state, and what the whole pass yields.

use crate::chars::{fold, is_letter, is_space, is_token_char, is_word_char};
use crate::formatter::tables::{command_spelling, parameter_spelling};
use vstd::prelude::*;

verus! {

/// The lexical context that the scanner is in.
#[derive(Debug, Clone, Copy, PartialEq, Eq, Structural)]
pub enum ScanState {
    Code,
    SingleQuoted,
    DoubleQuoted,
    LineComment,
    BlockComment,
    HereSingleQuoted,
    HereDoubleQuoted,
}

/// The kinds of character run that the scanner reads ahead over.
pub enum CharClass {
    /// ASCII letters and digits.
    Word,
    /// ASCII letters, digits and hyphens.
    Token,
    /// White space.
    Space,
}

/// Whether `c` belongs to `class`.
pub open spec fn in_class(class: CharClass, c: char) -> bool {
    match class {
        CharClass::Word => is_word_char(c),
        CharClass::Token => is_token_char(c),
        CharClass::Space => is_space(c),
    }
}

/// The length of the longest run of `class` characters that starts at `from`.
pub open spec fn run_len(s: Seq<char>, from: int, class: CharClass) -> nat
    decreases s.len() - from,
{
    if 0 <= from < s.len() && in_class(class, s[from]) {
        1 + run_len(s, from + 1, class)
    } else {
        0
    }
}

/// The two characters `a`, `b` stand at `i` and `i + 1`.
pub open spec fn pair_at(s: Seq<char>, i: int, a: char, b: char) -> bool {
    0 <= i && i + 1 < s.len() && s[i] == a && s[i + 1] == b
}

/// Position `i` is the first of a line.
pub open spec fn starts_line(s: Seq<char>, i: int) -> bool {
    i == 0 || (0 < i <= s.len() && s[i - 1] == '\n')
}

/// The character that opens an expression, a block, a variable or a quoted
/// name: after `&` it makes the call a dynamic one.
pub open spec fn opens_dynamic_target(c: char) -> bool {
    c == '$' || c == '(' || c == '{' || c == '\'' || c == '"'
}

/// The `&` at `i` invokes something that only a parser could follow.
pub open spec fn calls_dynamically(s: Seq<char>, i: int) -> bool {
    let j = i + 1 + run_len(s, i + 1, CharClass::Space);
    j < s.len() && opens_dynamic_target(s[j])
}

/// The lower-case form of the one command that evaluates a string as code.
pub open spec fn dynamic_evaluation_command() -> Seq<char> {
    "invoke-expression"@
}

/// What one step of the scanner does.
pub struct Step {
    /// The characters written to the output.
    pub emit: Seq<char>,
    /// The position after the characters read.
    pub next: int,
    /// The state after the step.
    pub state: ScanState,
    /// A command name was re-cased.
    pub command_fix: bool,
    /// A parameter name was re-cased.
    pub parameter_fix: bool,
    /// Unsafe syntax was met.
    pub risky: bool,
}

/// The step that copies `n` characters unchanged and goes to `state`.
pub open spec fn copy_step(s: Seq<char>, i: int, n: int, state: ScanState) -> Step {
    Step {
        emit: s.subrange(i, i + n),
        next: i + n,
        state,
        command_fix: false,
        parameter_fix: false,
        risky: false,
    }
}

/// The step at a `-` in code that is followed by a known parameter name.
pub open spec fn parameter_step(s: Seq<char>, i: int) -> Option<Step> {
    let n = run_len(s, i + 1, CharClass::Word);
    let token = s.subrange(i + 1, i + 1 + n);
    if n > 0 {
        match parameter_spelling(fold(token)) {
            Some(name) => Some(
                Step {
                    emit: seq!['-'] + name,
                    next: i + 1 + n,
                    state: ScanState::Code,
                    command_fix: false,
                    parameter_fix: token != name,
                    risky: false,
                },
            ),
            None => None,
        }
    } else {
        None
    }
}

/// The step at an ASCII letter in code: it reads a whole command token.
pub open spec fn command_step(s: Seq<char>, i: int) -> Step {
    let n = run_len(s, i, CharClass::Token);
    let token = s.subrange(i, i + n);
    let lowered = fold(token);
    let spelling = command_spelling(lowered);
    Step {
        emit: match spelling {
            Some(name) => name,
            None => token,
        },
        next: i + n,
        state: ScanState::Code,
        command_fix: match spelling {
            Some(name) => token != name,
            None => false,
        },
        parameter_fix: false,
        risky: lowered == dynamic_evaluation_command(),
    }
}

/// The step in code, for `0 <= i < s.len()`.
pub open spec fn code_step(s: Seq<char>, i: int) -> Step {
    let c = s[i];
    if pair_at(s, i, '<', '#') {
        copy_step(s, i, 2, ScanState::BlockComment)
    } else if pair_at(s, i, '@', '"') {
        copy_step(s, i, 2, ScanState::HereDoubleQuoted)
    } else if pair_at(s, i, '@', '\'') {
        copy_step(s, i, 2, ScanState::HereSingleQuoted)
    } else if c == '#' {
        copy_step(s, i, 1, ScanState::LineComment)
    } else if c == '\'' {
        copy_step(s, i, 1, ScanState::SingleQuoted)
    } else if c == '"' {
        copy_step(s, i, 1, ScanState::DoubleQuoted)
    } else if c == '&' {
        Step { risky: calls_dynamically(s, i), ..copy_step(s, i, 1, ScanState::Code) }
    } else if c == '-' && parameter_step(s, i) is Some {
        parameter_step(s, i)->0
    } else if is_letter(c) {
        command_step(s, i)
    } else {
        copy_step(s, i, 1, ScanState::Code)
    }
}

/// The step at position `i` in state `state`, for `0 <= i < s.len()`. Inside
/// a string, a comment or a here-string it copies, and looks for the end of
/// the literal.
pub open spec fn step(s: Seq<char>, i: int, state: ScanState) -> Step {
    let c = s[i];
    match state {
        ScanState::Code => code_step(s, i),
        ScanState::SingleQuoted => if c == '\'' {
            if i + 1 < s.len() && s[i + 1] == '\'' {
                copy_step(s, i, 2, ScanState::SingleQuoted)
            } else {
                copy_step(s, i, 1, ScanState::Code)
            }
        } else {
            copy_step(s, i, 1, ScanState::SingleQuoted)
        },
        ScanState::DoubleQuoted => if c == '`' {
            if i + 1 < s.len() {
                copy_step(s, i, 2, ScanState::DoubleQuoted)
            } else {
                copy_step(s, i, 1, ScanState::DoubleQuoted)
            }
        } else if c == '"' {
            copy_step(s, i, 1, ScanState::Code)
        } else {
            copy_step(s, i, 1, ScanState::DoubleQuoted)
        },
        ScanState::LineComment => if c == '\n' {
            copy_step(s, i, 1, ScanState::Code)
        } else {
            copy_step(s, i, 1, ScanState::LineComment)
        },
        ScanState::BlockComment => if pair_at(s, i, '#', '>') {
            copy_step(s, i, 2, ScanState::Code)
        } else {
            copy_step(s, i, 1, ScanState::BlockComment)
        },
        ScanState::HereSingleQuoted => if pair_at(s, i, '\'', '@') && starts_line(s, i) {
            copy_step(s, i, 2, ScanState::Code)
        } else {
            copy_step(s, i, 1, ScanState::HereSingleQuoted)
        },
        ScanState::HereDoubleQuoted => if pair_at(s, i, '"', '@') && starts_line(s, i) {
            copy_step(s, i, 2, ScanState::Code)
        } else {
            copy_step(s, i, 1, ScanState::HereDoubleQuoted)
        },
    }
}

/// What a scan yields: the text written and what was counted on the way.
pub struct Scan {
    pub text: Seq<char>,
    pub command_fixes: nat,
    pub parameter_fixes: nat,
    pub unsafe_detected: bool,
}

/// The scan that `first` and then `rest` make together.
pub open spec fn then_scan(first: Scan, rest: Scan) -> Scan {
    Scan {
        text: first.text + rest.text,
        command_fixes: first.command_fixes + rest.command_fixes,
        parameter_fixes: first.parameter_fixes + rest.parameter_fixes,
        unsafe_detected: first.unsafe_detected || rest.unsafe_detected,
    }
}

/// A single step, seen as a scan.
pub open spec fn step_scan(t: Step) -> Scan {
    Scan {
        text: t.emit,
        command_fixes: if t.command_fix {
            1
        } else {
            0
        },
        parameter_fixes: if t.parameter_fix {
            1
        } else {
            0
        },
        unsafe_detected: t.risky,
    }
}

/// The scan of `s` from position `i` on, entered in state `state`.
pub open spec fn scan_from(s: Seq<char>, i: int, state: ScanState) -> Scan
    decreases s.len() - i,
    via scan_from_terminates
{
    if 0 <= i < s.len() {
        let t = step(s, i, state);
        then_scan(step_scan(t), scan_from(s, t.next, t.state))
    } else {
        Scan { text: Seq::empty(), command_fixes: 0, parameter_fixes: 0, unsafe_detected: false }
    }
}

#[via_fn]
proof fn scan_from_terminates(s: Seq<char>, i: int, state: ScanState) {
    if 0 <= i < s.len() {
        lemma_step_advances(s, i, state);
    }
}

/// The scan of a whole text: what the formatter computes.
pub open spec fn scan(s: Seq<char>) -> Scan {
    scan_from(s, 0, ScanState::Code)
}

/// Every step reads at least one character, and none beyond the end.
pub proof fn lemma_step_advances(s: Seq<char>, i: int, state: ScanState)
    requires
        0 <= i < s.len(),
    ensures
        i < step(s, i, state).next <= s.len(),
{
    lemma_run_len_bounded(s, i, CharClass::Token);
    lemma_run_len_bounded(s, i + 1, CharClass::Word);
}

/// A run ends at or before the end of the text.
pub proof fn lemma_run_len_bounded(s: Seq<char>, from: int, class: CharClass)
    requires
        0 <= from <= s.len(),
    ensures
        from + run_len(s, from, class) <= s.len(),
    decreases s.len() - from,
{
    if from < s.len() && in_class(class, s[from]) {
        lemma_run_len_bounded(s, from + 1, class);
    }
}

} // verus!
