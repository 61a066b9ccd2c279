//! The scanner's command-line surface: one optional flag selecting an
//! output file path; absence selects the console. Parsing the process
//! arguments is the caller's business — the decision of what a run is
//! given stands here.

use vstd::prelude::*;

verus! {

/// The arguments of one run.
#[derive(Clone, Debug)]
pub struct CommandArg {
    /// The output file path, or `None` for console output.
    pub output: Option<String>,
}

/// Builds the run's arguments from the value of the output flag as the
/// argument parser delivered it: a present flag selects the file sink
/// at that path, an absent one the console.
pub fn handle_args(output: Option<String>) -> (r: Option<CommandArg>)
    ensures
        r matches Some(a) && a.output == output,
{
    Some(CommandArg { output })
}

} // verus!
