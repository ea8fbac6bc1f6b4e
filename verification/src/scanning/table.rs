//! The miners of one group, as a table lists them.

use crate::network::scanner::MinerRecord;
use vstd::prelude::*;

verus! {

#[derive(Debug, Clone, PartialEq, Eq)]
pub struct ScanningTable {
    pub group: String,
    pub miners: Vec<MinerRecord>,
}

impl ScanningTable {
    pub fn new(group: String, miners: Vec<MinerRecord>) -> (table: Self)
        ensures
            table.group == group,
            table.miners == miners,
    {
        ScanningTable { group, miners }
    }

    /// Adds a miner at the end of the table.
    pub fn push(&mut self, miner: MinerRecord)
        ensures
            final(self).group == old(self).group,
            final(self).miners@ == old(self).miners@.push(miner),
    {
        self.miners.push(miner);
    }
}

} // verus!
