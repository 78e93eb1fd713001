//! The command builder: turns a resolved binary path into the launch
//! specification the host uses to spawn the language server.

use vstd::prelude::*;

verus! {

/// How to launch the language server: the executable, its arguments, and
/// the (empty) environment.
pub struct LaunchSpec {
    pub command: String,
    pub args: Vec<String>,
    pub env: Vec<(String, String)>,
}

/// Build the launch specification for a resolved binary path: the binary
/// itself, the single fixed subcommand, and no environment.
pub fn language_server_command(binary_path: String) -> (c: LaunchSpec)
    ensures
        c.command == binary_path,
        c.args@.len() == 1,
        c.args@[0]@ == "lsp-server"@,
        c.env@.len() == 0,
{
    LaunchSpec {
        command: binary_path,
        args: vec!["lsp-server".to_owned()],
        env: Vec::new(),
    }
}

} // verus!
