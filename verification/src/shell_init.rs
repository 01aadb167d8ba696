//! The shell-integration snippet: a wrapper function that runs the tool
//! and changes the invoking shell's directory to whatever path the tool
//! printed.  The same snippet serves both supported shells.

use vstd::prelude::*;
use vstd::string::StringExecFns;
use crate::errors::{GjError, GjErrorV};
use crate::strutil::str_eq;

verus! {

/// The text of the shell wrapper function.
pub open spec fn spec_shell_script() -> Seq<char> {
    "function gj() {\n  local output\n  output=$(command gj \"$@\")\n  local exit_code=$?\n\n  if [[ $exit_code -eq 0 && -d \"$output\" ]]; then\n    cd \"$output\"\n    echo \"You are now in: ${output/#$HOME/~}\"\n  else\n    echo \"$output\"\n    return $exit_code\n  fi\n}\n"@
}

/// The initialization script for zsh.
pub fn zsh_init_script() -> (r: &'static str)
    ensures
        r@ == spec_shell_script(),
{
    "function gj() {\n  local output\n  output=$(command gj \"$@\")\n  local exit_code=$?\n\n  if [[ $exit_code -eq 0 && -d \"$output\" ]]; then\n    cd \"$output\"\n    echo \"You are now in: ${output/#$HOME/~}\"\n  else\n    echo \"$output\"\n    return $exit_code\n  fi\n}\n"
}

/// The initialization script for bash.
pub fn bash_init_script() -> (r: &'static str)
    ensures
        r@ == spec_shell_script(),
{
    "function gj() {\n  local output\n  output=$(command gj \"$@\")\n  local exit_code=$?\n\n  if [[ $exit_code -eq 0 && -d \"$output\" ]]; then\n    cd \"$output\"\n    echo \"You are now in: ${output/#$HOME/~}\"\n  else\n    echo \"$output\"\n    return $exit_code\n  fi\n}\n"
}

/// Returns the initialization script for the given shell, or an error for
/// any shell other than the two supported ones.
pub fn run(shell: &str) -> (r: Result<String, GjError>)
    ensures
        match r {
            Ok(s) => (shell@ == "zsh"@ || shell@ == "bash"@) && s@ == spec_shell_script(),
            Err(e) => !(shell@ == "zsh"@ || shell@ == "bash"@) && e@ == (GjErrorV::UnsupportedShell {
                shell: shell@,
            }),
        },
{
    if str_eq(shell, "zsh") {
        Ok(String::from_str(zsh_init_script()))
    } else if str_eq(shell, "bash") {
        Ok(String::from_str(bash_init_script()))
    } else {
        Err(GjError::UnsupportedShell { shell: String::from_str(shell) })
    }
}

} // verus!
