//! The result of a command as the backend reports it, with the one field
//! of its data that the logic reads (the result code), and the merging of
//! the two results of a dual-adapter run.

use vstd::prelude::*;
use crate::text::{concat2, concat3, to_owned_string};

verus! {

/// A command's result: success, an optional message and the result code
/// carried in its data (if any).
#[derive(Debug, Clone)]
pub struct CommandResult {
    pub success: bool,
    pub message: Option<String>,
    pub code: Option<String>,
}

pub open spec fn opt_text(o: Option<String>) -> Option<Seq<char>> {
    match o {
        Some(s) => Some(s@),
        None => None,
    }
}

impl CommandResult {
    /// A success without message.
    pub fn ok() -> (r: Self)
        ensures
            r.success,
            r.message is None,
            r.code is None,
    {
        CommandResult { success: true, message: None, code: None }
    }

    /// A success with a message.
    pub fn ok_msg(msg: &str) -> (r: Self)
        ensures
            r.success,
            opt_text(r.message) == Some(msg@),
            r.code is None,
    {
        CommandResult { success: true, message: Some(to_owned_string(msg)), code: None }
    }

    /// A failure with a message.
    pub fn err(msg: &str) -> (r: Self)
        ensures
            !r.success,
            opt_text(r.message) == Some(msg@),
            r.code is None,
    {
        CommandResult { success: false, message: Some(to_owned_string(msg)), code: None }
    }
}

/// The results of the primary and the secondary adapter (`None`: no
/// result, the run was cancelled or failed to start).
pub struct DualAdapterResult {
    pub primary: Option<CommandResult>,
    pub secondary: Option<CommandResult>,
}

pub open spec fn succeeded(r: Option<CommandResult>) -> bool {
    match r {
        Some(c) => c.success,
        None => false,
    }
}

pub open spec fn message_or_empty(r: Option<CommandResult>) -> Seq<char> {
    match r {
        Some(c) => match c.message {
            Some(m) => m@,
            None => ""@,
        },
        None => ""@,
    }
}

/// The two messages joined by `, ` when both are there, else whichever is.
pub open spec fn joined_messages(a: Seq<char>, b: Seq<char>) -> Seq<char> {
    if a.len() > 0 && b.len() > 0 {
        a + ", "@ + b
    } else {
        a + b
    }
}

fn message_of(r: &Option<CommandResult>) -> (m: String)
    ensures
        m@ == message_or_empty(*r),
{
    match r {
        Some(c) => match &c.message {
            Some(m) => to_owned_string(m.as_str()),
            None => to_owned_string(""),
        },
        None => to_owned_string(""),
    }
}

impl DualAdapterResult {
    /// The run succeeded when either adapter did.
    pub fn success(&self) -> (r: bool)
        ensures
            r == (succeeded(self.primary) || succeeded(self.secondary)),
    {
        let a = match &self.primary {
            Some(c) => c.success,
            None => false,
        };
        let b = match &self.secondary {
            Some(c) => c.success,
            None => false,
        };
        a || b
    }

    /// One result for both adapters: success when either succeeded, the
    /// messages joined, and the code `0` on success, `1` otherwise.
    pub fn build_command_result(&self) -> (r: CommandResult)
        ensures
            r.success == (succeeded(self.primary) || succeeded(self.secondary)),
            opt_text(r.message) == Some(
                joined_messages(message_or_empty(self.primary), message_or_empty(self.secondary)),
            ),
            opt_text(r.code) == Some(
                if r.success {
                    "0"@
                } else {
                    "1"@
                },
            ),
    {
        let a1 = message_of(&self.primary);
        let a2 = message_of(&self.secondary);
        let combined = if !a1.as_str().is_empty() && !a2.as_str().is_empty() {
            concat3(a1.as_str(), ", ", a2.as_str())
        } else {
            concat2(a1.as_str(), a2.as_str())
        };
        let success = self.success();
        CommandResult {
            success,
            message: Some(combined),
            code: Some(
                if success {
                    to_owned_string("0")
                } else {
                    to_owned_string("1")
                },
            ),
        }
    }
}

} // verus!
