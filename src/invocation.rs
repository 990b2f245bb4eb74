use vstd::prelude::*;
use vstd::string::*;

verus! {

/// The program run and the one argument it is given.
pub struct Invocation {
    pub program: String,
    pub arg: String,
}

/// The executable looked up on the search path.
pub open spec fn tool_name() -> Seq<char> {
    "ollama"@
}

/// The argument that asks the tool for its version.
pub open spec fn version_arg() -> Seq<char> {
    "--version"@
}

/// The argument that starts the tool's server.
pub open spec fn serve_arg() -> Seq<char> {
    "serve"@
}

/// The command whose spawn tells whether the tool is installed.
pub fn probe_invocation() -> (r: Invocation)
    ensures
        r.program@ == tool_name(),
        r.arg@ == version_arg(),
{
    Invocation { program: String::from_str("ollama"), arg: String::from_str("--version") }
}

/// The command that launches the tool's server.
pub fn serve_invocation() -> (r: Invocation)
    ensures
        r.program@ == tool_name(),
        r.arg@ == serve_arg(),
{
    Invocation { program: String::from_str("ollama"), arg: String::from_str("serve") }
}

} // verus!
