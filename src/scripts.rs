//! Post-scan scripts.
use crate::types::ScanResults;
use vstd::prelude::*;

verus! {

/// Why a script run failed.
#[derive(Debug, Clone, Copy, PartialEq, Eq, Structural)]
pub enum ScriptError {
    Failed,
}

/// Runs the named scripts against the report. No script engine is
/// attached: the report is left as it is and the run succeeds.
pub fn run_custom_scripts(results: &mut ScanResults, scripts: &Vec<String>) -> (r: Result<(), ScriptError>)
    ensures
        r is Ok,
        *final(results) == *old(results),
{
    Ok(())
}

} // verus!
