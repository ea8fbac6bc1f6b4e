//! What to make of the answers of a single, known miner.
//!
//! Talking to the miner is the caller's part; here its answers are turned
//! into results and errors.

use crate::errors::FetchError;
use vstd::prelude::*;
use vstd::string::*;

verus! {

/// Turns the answer of a lookup of the miner at the address `ip` into the
/// miner or the error to report.
pub fn lookup_outcome<M>(found: Result<Option<M>, String>, ip: &str) -> (outcome: Result<
    M,
    FetchError,
>)
    ensures
        match found {
            Ok(Some(miner)) => outcome == Ok::<M, FetchError>(miner),
            Ok(None) => outcome matches Err(FetchError::MinerNotFound(address)) && address@ == ip@,
            Err(reason) => outcome == Err::<M, FetchError>(FetchError::MinerDataError(reason)),
        },
{
    match found {
        Ok(Some(miner)) => Ok(miner),
        Ok(None) => Err(FetchError::MinerNotFound(String::from_str(ip))),
        Err(reason) => Err(FetchError::MinerDataError(reason)),
    }
}

/// Turns the answer to a command into its result or the error to report.
pub fn command_outcome(answer: Result<bool, String>) -> (outcome: Result<bool, FetchError>)
    ensures
        outcome == match answer {
            Ok(done) => Ok::<bool, FetchError>(done),
            Err(reason) => Err::<bool, FetchError>(FetchError::MinerDataError(reason)),
        },
{
    match answer {
        Ok(done) => Ok(done),
        Err(reason) => Err(FetchError::MinerDataError(reason)),
    }
}

/// The state to switch the fault light to: on, unless it is known to be
/// flashing.
pub fn next_fault_light(flashing: Option<bool>) -> (next: bool)
    ensures
        next == match flashing {
            Some(on) => !on,
            None => true,
        },
{
    match flashing {
        Some(on) => !on,
        None => true,
    }
}

} // verus!
