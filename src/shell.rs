//! The command line that a session's shell is launched with.

use vstd::prelude::*;
use vstd::string::StringExecFns;

verus! {

/// The shell program to run in a pseudo-terminal and the value of its `TERM`
/// variable, so that programs under it see an interactive terminal.
#[derive(Clone, Debug, PartialEq, Eq)]
pub struct ShellCommand {
    pub program: String,
    pub term: String,
}

/// On Windows-family hosts a fixed interactive shell; elsewhere the user's
/// `SHELL` (when set), falling back to `/bin/bash`.
pub fn shell_command(windows: bool, shell_var: Option<String>) -> (r: ShellCommand)
    ensures
        windows ==> r.program@ == "powershell.exe"@ && r.term@ == "cygwin"@,
        !windows ==> r.term@ == "xterm-256color"@ && r.program@ == match shell_var {
            Some(s) => s@,
            None => "/bin/bash"@,
        },
{
    if windows {
        ShellCommand {
            program: String::from_str("powershell.exe"),
            term: String::from_str("cygwin"),
        }
    } else {
        let program = match shell_var {
            Some(s) => s,
            None => String::from_str("/bin/bash"),
        };
        ShellCommand { program, term: String::from_str("xterm-256color") }
    }
}

} // verus!
