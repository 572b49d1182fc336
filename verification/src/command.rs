//! What an external command left behind, as plain values.

use crate::text::{signed_decimal, signed_decimal_string};
use vstd::prelude::*;
use vstd::string::StringExecFns;

verus! {

/// What a command that ran to its end left behind.
#[derive(Debug, Clone)]
pub struct CommandOutput {
    /// The command reported success.
    pub success: bool,
    /// The exit code, where the command ended with one.
    pub code: Option<i32>,
    /// Standard output, as text.
    pub stdout: String,
    /// Standard error, as text.
    pub stderr: String,
}

/// The output of a command with its texts as sequences of characters.
pub struct CommandOutputView {
    pub success: bool,
    pub code: Option<i32>,
    pub stdout: Seq<char>,
    pub stderr: Seq<char>,
}

impl View for CommandOutput {
    type V = CommandOutputView;

    open spec fn view(&self) -> CommandOutputView {
        CommandOutputView {
            success: self.success,
            code: self.code,
            stdout: self.stdout@,
            stderr: self.stderr@,
        }
    }
}

/// What became of a command, with its texts as sequences of characters:
/// its output, or the reason why it could not be started.
pub open spec fn outcome_view(outcome: Result<CommandOutput, String>) -> Result<
    CommandOutputView,
    Seq<char>,
> {
    match outcome {
        Ok(output) => Ok(output@),
        Err(cause) => Err(cause@),
    }
}

/// How an exit code is written in a message: `Some(3)`, or `None` where the
/// command ended without one.
pub open spec fn exit_code_text(code: Option<i32>) -> Seq<char> {
    match code {
        Some(n) => "Some("@ + signed_decimal(n as int) + ")"@,
        None => "None"@,
    }
}

/// Appends to `message` how the exit code `code` is written.
pub fn push_exit_code(message: &mut String, code: Option<i32>)
    ensures
        final(message)@ == old(message)@ + exit_code_text(code),
{
    let ghost before = message@;
    match code {
        Some(n) => {
            message.append("Some(");
            message.append(signed_decimal_string(n).as_str());
            message.append(")");
            assert(message@ =~= before + exit_code_text(code));
        },
        None => {
            message.append("None");
        },
    }
}

} // verus!
