//! What the tabbed results are told.

use crate::network::scanner::MinerRecord;
use vstd::prelude::*;

verus! {

#[derive(Debug, Clone, PartialEq, Eq)]
pub enum ScanningMessage {
    MinerFound { group_name: String, miner: MinerRecord },
    GroupTabSelected(String),
    GroupCompleted(String),
    GroupError { group_name: String, error: String },
    AllScansCompleted,
    StopScan,
    BackToDashboard,
    /// Open the web page of the miner at this IPv4 address.
    OpenIpInBrowser(u32),
}

} // verus!
