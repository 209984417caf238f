//! The structured description of one external-process invocation: program,
//! argument list, and optional working directory.  The library only computes
//! these descriptions; the unverified shell around it spawns them.

use vstd::prelude::*;

verus! {

/// One external-process invocation, fully determined: the program to spawn,
/// its arguments in order, and the directory to run it in (`None` means the
/// caller's current working directory).
#[derive(Clone, Debug, PartialEq, Eq)]
pub struct CommandSpec {
    pub program: String,
    pub args: Vec<String>,
    pub current_dir: Option<String>,
}

impl CommandSpec {
    /// The argument list as a sequence of character sequences.
    pub open spec fn args_view(&self) -> Seq<Seq<char>> {
        self.args.deep_view()
    }
}

} // verus!
