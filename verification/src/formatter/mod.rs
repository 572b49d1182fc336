//! The casing formatter: one pass over a source text that rewrites known
//! command and parameter names to their canonical spelling.

pub mod laws;
pub mod model;
pub mod tables;

use crate::chars::{
    fold, is_ascii_alphabetic, is_ascii_alphanumeric, is_whitespace, same_ignoring_case,
    to_ascii_lowercase,
};
use crate::formatter::laws::{lemma_scan_keeps_text, lemma_scan_unchanged_iff_no_fixes};
use crate::formatter::model::{
    calls_dynamically, copy_step, in_class, pair_at, run_len, scan, scan_from, starts_line, step,
    lemma_step_advances, CharClass, Scan, ScanState, Step,
};
use crate::formatter::tables::{
    command_at, command_spelling, command_table, first_match, lemma_table_sizes, parameter_at,
    parameter_spelling, parameter_table, COMMAND_COUNT, PARAMETER_COUNT,
};
use crate::text::{chars_of, push_range, push_str, same_chars, string_of};
use vstd::prelude::*;

verus! {

/// What formatting one text yields.
#[derive(Debug, Clone)]
pub struct FormatOutcome {
    /// The text after formatting; the input itself where nothing was re-cased.
    pub formatted: String,
    /// How many command names were re-cased.
    pub command_fixes: usize,
    /// How many parameter names were re-cased.
    pub parameter_fixes: usize,
    /// The text holds syntax that this scanner cannot rewrite safely.
    pub unsafe_detected: bool,
}

impl View for FormatOutcome {
    type V = Scan;

    open spec fn view(&self) -> Scan {
        Scan {
            text: self.formatted@,
            command_fixes: self.command_fixes as nat,
            parameter_fixes: self.parameter_fixes as nat,
            unsafe_detected: self.unsafe_detected,
        }
    }
}

/// What one executed step reports; the characters it wrote are in the output.
struct Advance {
    next: usize,
    state: ScanState,
    command_fix: bool,
    parameter_fix: bool,
    risky: bool,
}

/// The executed step `a`, which took the output from `before` to `after`, is
/// the step `t` of the model.
spec fn performs(a: Advance, before: Seq<char>, after: Seq<char>, t: Step) -> bool {
    &&& after == before + t.emit
    &&& a.next == t.next
    &&& a.state == t.state
    &&& a.command_fix == t.command_fix
    &&& a.parameter_fix == t.parameter_fix
    &&& a.risky == t.risky
}

fn belongs(class: &CharClass, c: char) -> (b: bool)
    ensures
        b == in_class(*class, c),
{
    match class {
        CharClass::Word => is_ascii_alphanumeric(c),
        CharClass::Token => is_ascii_alphanumeric(c) || c == '-',
        CharClass::Space => is_whitespace(c),
    }
}

/// The end of the run of `class` characters that starts at `start`.
fn run_end(input: &Vec<char>, start: usize, class: CharClass) -> (end: usize)
    requires
        start <= input.len(),
    ensures
        end == start + run_len(input@, start as int, class),
        start <= end <= input.len(),
{
    let mut end: usize = start;
    while end < input.len() && belongs(&class, input[end])
        invariant
            start <= end <= input.len(),
            run_len(input@, start as int, class) == (end - start) + run_len(
                input@,
                end as int,
                class,
            ),
        decreases input.len() - end,
    {
        end += 1;
    }
    end
}

fn starts_with_at(input: &Vec<char>, index: usize, first: char, second: char) -> (b: bool)
    ensures
        b == pair_at(input@, index as int, first, second),
{
    index < input.len() && input.len() - index >= 2 && input[index] == first && input[index + 1]
        == second
}

/// Reads the letters and digits from `start` on; `None` where there are none.
fn read_word(input: &Vec<char>, start: usize) -> (r: Option<usize>)
    requires
        start <= input.len(),
    ensures
        match r {
            Some(end) => start < end <= input.len() && end == start + run_len(
                input@,
                start as int,
                CharClass::Word,
            ),
            None => run_len(input@, start as int, CharClass::Word) == 0,
        },
{
    let end = run_end(input, start, CharClass::Word);
    if end == start {
        None
    } else {
        Some(end)
    }
}

/// Reads the letters, digits and hyphens from `start` on; `None` where there
/// are none.
fn read_command_token(input: &Vec<char>, start: usize) -> (r: Option<usize>)
    requires
        start <= input.len(),
    ensures
        match r {
            Some(end) => start < end <= input.len() && end == start + run_len(
                input@,
                start as int,
                CharClass::Token,
            ),
            None => run_len(input@, start as int, CharClass::Token) == 0,
        },
{
    let end = run_end(input, start, CharClass::Token);
    if end == start {
        None
    } else {
        Some(end)
    }
}

fn is_line_start(input: &Vec<char>, index: usize) -> (b: bool)
    requires
        index <= input.len(),
    ensures
        b == starts_line(input@, index as int),
{
    index == 0 || input[index - 1] == '\n'
}

fn is_dynamic_call_operator(input: &Vec<char>, index: usize) -> (b: bool)
    requires
        index < input.len(),
    ensures
        b == calls_dynamically(input@, index as int),
{
    let cursor = run_end(input, index + 1, CharClass::Space);
    if cursor < input.len() {
        let c = input[cursor];
        c == '$' || c == '(' || c == '{' || c == '\'' || c == '"'
    } else {
        false
    }
}

/// The lower-case form of `input[start..end]`.
fn lowered(input: &Vec<char>, start: usize, end: usize) -> (r: Vec<char>)
    requires
        start <= end <= input.len(),
    ensures
        r@ == fold(input@.subrange(start as int, end as int)),
{
    let mut r: Vec<char> = Vec::new();
    let mut i: usize = start;
    while i < end
        invariant
            start <= i <= end <= input.len(),
            r@ == fold(input@.subrange(start as int, i as int)),
        decreases end - i,
    {
        r.push(to_ascii_lowercase(input[i]));
        i += 1;
        assert(r@ =~= fold(input@.subrange(start as int, i as int)));
    }
    r
}

/// Whether `name`, folded to lower case, is `lowered`.
fn folds_to(name: &str, lowered: &Vec<char>) -> (r: bool)
    ensures
        r == (fold(name@) == lowered@),
{
    let spelled = chars_of(name);
    let folded = self::lowered(&spelled, 0, spelled.len());
    assert(spelled@.subrange(0, spelled.len() as int) =~= spelled@);
    same_chars(&folded, lowered)
}

fn canonical_command(token_lower: &Vec<char>) -> (r: Option<&'static str>)
    ensures
        match r {
            Some(name) => command_spelling(token_lower@) == Some(name@),
            None => command_spelling(token_lower@) is None,
        },
{
    proof {
        lemma_table_sizes();
    }
    let mut k: usize = 0;
    while k < COMMAND_COUNT
        invariant
            k <= COMMAND_COUNT == command_table().len(),
            command_spelling(token_lower@) == first_match(
                command_table(),
                token_lower@,
                k as int,
            ),
        decreases COMMAND_COUNT - k,
    {
        let name = command_at(k);
        if folds_to(name, token_lower) {
            return Some(name);
        }
        k += 1;
    }
    None
}

fn canonical_parameter(input: &Vec<char>, start: usize, end: usize) -> (r: Option<&'static str>)
    requires
        start <= end <= input.len(),
    ensures
        match r {
            Some(name) => parameter_spelling(fold(input@.subrange(start as int, end as int)))
                == Some(name@),
            None => parameter_spelling(fold(input@.subrange(start as int, end as int))) is None,
        },
{
    proof {
        lemma_table_sizes();
    }
    let token_lower = lowered(input, start, end);
    let mut k: usize = 0;
    while k < PARAMETER_COUNT
        invariant
            k <= PARAMETER_COUNT == parameter_table().len(),
            start <= end <= input.len(),
            token_lower@ == fold(input@.subrange(start as int, end as int)),
            parameter_spelling(token_lower@) == first_match(
                parameter_table(),
                token_lower@,
                k as int,
            ),
        decreases PARAMETER_COUNT - k,
    {
        let name = parameter_at(k);
        if folds_to(name, &token_lower) {
            return Some(name);
        }
        k += 1;
    }
    None
}

/// Whether `input[start..end]` is spelled exactly as `name`.
fn is_spelled(input: &Vec<char>, start: usize, end: usize, name: &Vec<char>) -> (r: bool)
    requires
        start <= end <= input.len(),
    ensures
        r == (input@.subrange(start as int, end as int) == name@),
{
    if end - start != name.len() {
        return false;
    }
    let mut i: usize = 0;
    while i < name.len()
        invariant
            i <= name.len(),
            start + name.len() == end <= input.len(),
            input@.subrange(start as int, start + i) == name@.take(i as int),
        decreases name.len() - i,
    {
        if input[start + i] != name[i] {
            assert(input@.subrange(start as int, end as int)[i as int] != name@[i as int]);
            return false;
        }
        i += 1;
        assert(input@.subrange(start as int, start + i) =~= input@.subrange(
            start as int,
            start + i - 1,
        ).push(input@[start + i - 1]));
        assert(name@.take(i as int) =~= name@.take(i - 1).push(name@[i - 1]));
    }
    assert(name@ =~= name@.take(name.len() as int));
    true
}

/// Copies `n` characters from `index` on and goes to `state`.
fn copy_chars(
    input: &Vec<char>,
    index: usize,
    n: usize,
    state: ScanState,
    output: &mut Vec<char>,
) -> (a: Advance)
    requires
        index + n <= input.len(),
    ensures
        performs(a, old(output)@, final(output)@, copy_step(input@, index as int, n as int, state)),
{
    push_range(output, input, index, index + n);
    Advance { next: index + n, state, command_fix: false, parameter_fix: false, risky: false }
}

/// One step in code.
fn scan_code(input: &Vec<char>, index: usize, output: &mut Vec<char>) -> (a: Advance)
    requires
        index < input.len(),
    ensures
        performs(a, old(output)@, final(output)@, step(input@, index as int, ScanState::Code)),
{
    if starts_with_at(input, index, '<', '#') {
        return copy_chars(input, index, 2, ScanState::BlockComment, output);
    }
    if starts_with_at(input, index, '@', '"') {
        return copy_chars(input, index, 2, ScanState::HereDoubleQuoted, output);
    }
    if starts_with_at(input, index, '@', '\'') {
        return copy_chars(input, index, 2, ScanState::HereSingleQuoted, output);
    }
    let character = input[index];
    if character == '#' {
        return copy_chars(input, index, 1, ScanState::LineComment, output);
    }
    if character == '\'' {
        return copy_chars(input, index, 1, ScanState::SingleQuoted, output);
    }
    if character == '"' {
        return copy_chars(input, index, 1, ScanState::DoubleQuoted, output);
    }
    if character == '&' {
        let risky = is_dynamic_call_operator(input, index);
        let copied = copy_chars(input, index, 1, ScanState::Code, output);
        return Advance { risky, ..copied };
    }
    if character == '-' {
        if let Some(next_index) = read_word(input, index + 1) {
            if let Some(canonical) = canonical_parameter(input, index + 1, next_index) {
                let spelled = chars_of(canonical);
                let parameter_fix = !is_spelled(input, index + 1, next_index, &spelled);
                let ghost before = output@;
                output.push('-');
                push_str(output, canonical);
                assert(output@ =~= before + (seq!['-'] + canonical@));
                return Advance {
                    next: next_index,
                    state: ScanState::Code,
                    command_fix: false,
                    parameter_fix,
                    risky: false,
                };
            }
        }
    }
    if is_ascii_alphabetic(character) {
        if let Some(next_index) = read_command_token(input, index) {
            let token_lower = lowered(input, index, next_index);
            let risky = same_chars(&token_lower, &chars_of("invoke-expression"));
            if let Some(canonical) = canonical_command(&token_lower) {
                let spelled = chars_of(canonical);
                let command_fix = !is_spelled(input, index, next_index, &spelled);
                push_str(output, canonical);
                return Advance {
                    next: next_index,
                    state: ScanState::Code,
                    command_fix,
                    parameter_fix: false,
                    risky,
                };
            }
            push_range(output, input, index, next_index);
            return Advance {
                next: next_index,
                state: ScanState::Code,
                command_fix: false,
                parameter_fix: false,
                risky,
            };
        }
    }
    copy_chars(input, index, 1, ScanState::Code, output)
}

/// One step inside a string, a comment or a here-string.
fn scan_literal(input: &Vec<char>, index: usize, state: ScanState, output: &mut Vec<char>) -> (a:
    Advance)
    requires
        index < input.len(),
        state != ScanState::Code,
    ensures
        performs(a, old(output)@, final(output)@, step(input@, index as int, state)),
{
    let character = input[index];
    match state {
        ScanState::Code => copy_chars(input, index, 1, ScanState::Code, output),
        ScanState::SingleQuoted => {
            if character == '\'' {
                if index + 1 < input.len() && input[index + 1] == '\'' {
                    copy_chars(input, index, 2, ScanState::SingleQuoted, output)
                } else {
                    copy_chars(input, index, 1, ScanState::Code, output)
                }
            } else {
                copy_chars(input, index, 1, ScanState::SingleQuoted, output)
            }
        },
        ScanState::DoubleQuoted => {
            if character == '`' {
                if index + 1 < input.len() {
                    copy_chars(input, index, 2, ScanState::DoubleQuoted, output)
                } else {
                    copy_chars(input, index, 1, ScanState::DoubleQuoted, output)
                }
            } else if character == '"' {
                copy_chars(input, index, 1, ScanState::Code, output)
            } else {
                copy_chars(input, index, 1, ScanState::DoubleQuoted, output)
            }
        },
        ScanState::LineComment => {
            if character == '\n' {
                copy_chars(input, index, 1, ScanState::Code, output)
            } else {
                copy_chars(input, index, 1, ScanState::LineComment, output)
            }
        },
        ScanState::BlockComment => {
            if starts_with_at(input, index, '#', '>') {
                copy_chars(input, index, 2, ScanState::Code, output)
            } else {
                copy_chars(input, index, 1, ScanState::BlockComment, output)
            }
        },
        ScanState::HereSingleQuoted => {
            if starts_with_at(input, index, '\'', '@') && is_line_start(input, index) {
                copy_chars(input, index, 2, ScanState::Code, output)
            } else {
                copy_chars(input, index, 1, ScanState::HereSingleQuoted, output)
            }
        },
        ScanState::HereDoubleQuoted => {
            if starts_with_at(input, index, '"', '@') && is_line_start(input, index) {
                copy_chars(input, index, 2, ScanState::Code, output)
            } else {
                copy_chars(input, index, 1, ScanState::HereDoubleQuoted, output)
            }
        },
    }
}

/// Formats one source text: command and parameter names that stand in code
/// and are known to the tables get their canonical spelling, and everything
/// else is copied as it is.
pub fn format_content(input: &str) -> (outcome: FormatOutcome)
    ensures
        outcome@ == scan(input@),
        outcome.formatted@.len() == input@.len(),
        same_ignoring_case(outcome.formatted@, input@),
        outcome.formatted@ == input@ <==> (outcome.command_fixes == 0 && outcome.parameter_fixes
            == 0),
{
    let chars = chars_of(input);
    let mut output: Vec<char> = Vec::new();
    let mut state = ScanState::Code;
    let mut index: usize = 0;
    let mut command_fixes: usize = 0;
    let mut parameter_fixes: usize = 0;
    let mut unsafe_detected = false;

    while index < chars.len()
        invariant
            index <= chars.len(),
            chars@ == input@,
            command_fixes + parameter_fixes <= index,
            scan(chars@).text == output@ + scan_from(chars@, index as int, state).text,
            scan(chars@).command_fixes == command_fixes + scan_from(
                chars@,
                index as int,
                state,
            ).command_fixes,
            scan(chars@).parameter_fixes == parameter_fixes + scan_from(
                chars@,
                index as int,
                state,
            ).parameter_fixes,
            scan(chars@).unsafe_detected == (unsafe_detected || scan_from(
                chars@,
                index as int,
                state,
            ).unsafe_detected),
        decreases chars.len() - index,
    {
        let ghost before = output@;
        let ghost t = step(chars@, index as int, state);
        let advance = match state {
            ScanState::Code => scan_code(&chars, index, &mut output),
            _ => scan_literal(&chars, index, state, &mut output),
        };
        proof {
            lemma_step_advances(chars@, index as int, state);
            assert(output@ + scan_from(chars@, t.next, t.state).text =~= before + (t.emit
                + scan_from(chars@, t.next, t.state).text));
        }
        if advance.command_fix {
            command_fixes += 1;
        }
        if advance.parameter_fix {
            parameter_fixes += 1;
        }
        if advance.risky {
            unsafe_detected = true;
        }
        index = advance.next;
        state = advance.state;
    }
    assert(output@ =~= scan(chars@).text);
    let formatted = string_of(&output, 0, output.len());
    assert(output@.subrange(0, output.len() as int) =~= output@);
    proof {
        lemma_scan_keeps_text(input@);
        lemma_scan_unchanged_iff_no_fixes(input@);
    }
    FormatOutcome { formatted, command_fixes, parameter_fixes, unsafe_detected }
}

} // verus!
