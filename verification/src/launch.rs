//! The fixed command that starts the server.

use vstd::prelude::*;

verus! {

/// The name of the executable, looked up on the search path.
pub open spec fn program_name() -> Seq<char> {
    "python3"@
}

/// The script handed to the executable as its first argument.
pub open spec fn script_path() -> Seq<char> {
    "universal-ui/runner/run_local.py"@
}

/// The flag that makes the script serve requests.
pub open spec fn serve_flag() -> Seq<char> {
    "--serve"@
}

/// A process launch request: an executable and its arguments, in order.
///
/// Working directory, environment and standard streams are not part of it:
/// the child inherits them from the host.
#[derive(Debug)]
pub struct LaunchPlan {
    pub program: String,
    pub args: Vec<String>,
}

impl LaunchPlan {
    /// True of exactly the launch of the server: the fixed executable with the
    /// script path and the serve flag, and nothing else.
    pub open spec fn is_server_launch(&self) -> bool {
        &&& self.program@ == program_name()
        &&& self.args@.len() == 2
        &&& self.args@[0]@ == script_path()
        &&& self.args@[1]@ == serve_flag()
    }
}

/// The launch request for the server. It is the same on every call: nothing
/// about the command can be customised.
pub fn server_launch() -> (plan: LaunchPlan)
    ensures
        plan.is_server_launch(),
{
    let mut args: Vec<String> = Vec::new();
    args.push(String::from_str("universal-ui/runner/run_local.py"));
    args.push(String::from_str("--serve"));
    LaunchPlan { program: String::from_str("python3"), args }
}

} // verus!
