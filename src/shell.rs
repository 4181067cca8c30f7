//! What a shell command run before or after a task produced.
use vstd::prelude::*;

verus! {

/// Exit code and captured output of a command.
#[derive(Debug)]
pub struct CommandResult {
    pub exit_code: i32,
    pub stdout: String,
    pub stderr: String,
}

impl CommandResult {
    pub fn success(&self) -> (r: bool)
        ensures
            r == (self.exit_code == 0),
    {
        self.exit_code == 0
    }
}

} // verus!
