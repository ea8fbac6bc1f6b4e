//! The tabs of the scan results and the table behind each.

use crate::config::clone_miners;
use crate::main_view::miners_or_none;
use crate::named::{
    find_named, lemma_value_absent, lemma_value_added, lemma_value_at, lemma_value_replaced,
    names_distinct, value_under, Named,
};
use crate::network::scanner::MinerRecord;
use crate::scanning::message::ScanningMessage;
use crate::scanning::table::ScanningTable;
use vstd::prelude::*;
use vstd::string::*;

verus! {

/// State of the tabbed results.
#[derive(Debug, Clone, PartialEq, Eq)]
pub struct ScanningTabs {
    pub active_tab: String,
    /// The miners of each group, under the group's name.
    pub tabs: Vec<Named<Vec<MinerRecord>>>,
    pub is_scanning: bool,
    /// The table of each group, under the group's name.
    pub tab_tables: Vec<Named<ScanningTable>>,
}

/// The miners that `table` lists, or none where there is no table.
pub open spec fn listed_or_none(table: Option<ScanningTable>) -> Seq<MinerRecord> {
    match table {
        Some(present) => present.miners@,
        None => Seq::empty(),
    }
}

impl ScanningTabs {
    /// The miners of the tab named `name`.
    pub open spec fn tab_of(self, name: Seq<char>) -> Option<Vec<MinerRecord>> {
        value_under(self.tabs@, name)
    }

    /// The table behind the tab named `name`.
    pub open spec fn table_of(self, name: Seq<char>) -> Option<ScanningTable> {
        value_under(self.tab_tables@, name)
    }

    /// No name occurs twice among the tabs, nor among the tables.
    pub open spec fn wf(self) -> bool {
        &&& names_distinct(self.tabs@)
        &&& names_distinct(self.tab_tables@)
    }

    /// The tabs over `tabs`, with a table behind each that lists the same
    /// miners, while a scan runs.
    pub fn new(active_tab: String, tabs: Vec<Named<Vec<MinerRecord>>>) -> (page: Self)
        requires
            names_distinct(tabs@),
        ensures
            page.wf(),
            page.active_tab == active_tab,
            page.tabs == tabs,
            page.is_scanning,
            page.tab_tables@.len() == tabs@.len(),
            forall|i: int|
                0 <= i < tabs@.len() ==> (#[trigger] page.tab_tables@[i]).name@ == tabs@[i].name@
                    && page.tab_tables@[i].value.group@ == tabs@[i].name@
                    && page.tab_tables@[i].value.miners@ == tabs@[i].value@,
    {
        let mut tables: Vec<Named<ScanningTable>> = Vec::new();
        let mut i: usize = 0;
        while i < tabs.len()
            invariant
                i <= tabs.len(),
                tables@.len() == i,
                forall|j: int|
                    0 <= j < i ==> (#[trigger] tables@[j]).name@ == tabs@[j].name@
                        && tables@[j].value.group@ == tabs@[j].name@ && tables@[j].value.miners@
                        == tabs@[j].value@,
            decreases tabs.len() - i,
        {
            tables.push(
                Named {
                    name: tabs[i].name.clone(),
                    value: ScanningTable::new(tabs[i].name.clone(), clone_miners(&tabs[i].value)),
                },
            );
            i += 1;
        }
        proof {
            assert forall|a: int, b: int| 0 <= a < b < tables@.len() implies (
            #[trigger] tables@[a]).name@ != (#[trigger] tables@[b]).name@ by {
                assert(tabs@[a].name@ != tabs@[b].name@);
            }
        }
        ScanningTabs { active_tab, tabs, is_scanning: true, tab_tables: tables }
    }

    /// What applying `message` leaves of the tabs `self`: a miner that was
    /// found joins the tab and the table of its group, which are made where
    /// the group is new; a selected tab becomes the active one; the end of
    /// the scan, or its stop, ends the scanning.
    pub open spec fn applied(self, after: ScanningTabs, message: ScanningMessage) -> bool {
        match message {
            ScanningMessage::MinerFound { group_name, miner } => {
                &&& after.active_tab == self.active_tab
                &&& after.is_scanning == self.is_scanning
                &&& after.tab_of(group_name@) matches Some(miners) && miners@ == miners_or_none(
                    self.tab_of(group_name@),
                ).push(miner)
                &&& forall|other: Seq<char>|
                    other != group_name@ ==> #[trigger] after.tab_of(other) == self.tab_of(other)
                &&& after.table_of(group_name@) matches Some(table) && table.miners@
                    == listed_or_none(self.table_of(group_name@)).push(miner)
                &&& forall|other: Seq<char>|
                    other != group_name@ ==> #[trigger] after.table_of(other) == self.table_of(
                        other,
                    )
            },
            ScanningMessage::GroupTabSelected(group_name) => after == (ScanningTabs {
                active_tab: group_name,
                ..self
            }),
            ScanningMessage::AllScansCompleted | ScanningMessage::StopScan => after
                == (ScanningTabs { is_scanning: false, ..self }),
            _ => after == self,
        }
    }

    /// Applies a message to the tabs.
    pub fn update(&mut self, message: ScanningMessage)
        requires
            old(self).wf(),
        ensures
            final(self).wf(),
            old(self).applied(*final(self), message),
    {
        match message {
            ScanningMessage::MinerFound { group_name, miner } => {
                let ghost name = group_name@;
                let ghost tabs0 = self.tabs@;
                let ghost tables0 = self.tab_tables@;
                let copy = miner.clone();
                match find_named(&self.tabs, group_name.as_str()) {
                    Some(index) => {
                        proof {
                            lemma_value_at(tabs0, name, index as int);
                        }
                        self.tabs[index].value.push(miner);
                        proof {
                            lemma_value_replaced(tabs0, self.tabs@, index as int);
                        }
                    },
                    None => {
                        let mut miners: Vec<MinerRecord> = Vec::new();
                        miners.push(miner);
                        self.tabs.push(Named { name: group_name.clone(), value: miners });
                        proof {
                            lemma_value_absent(tabs0, name);
                            lemma_value_added(tabs0, self.tabs@.last());
                            assert(self.tabs@ =~= tabs0.push(self.tabs@.last()));
                            assert(self.tab_of(name).unwrap()@ =~= Seq::<MinerRecord>::empty().push(
                                miner,
                            ));
                        }
                    },
                }
                match find_named(&self.tab_tables, group_name.as_str()) {
                    Some(index) => {
                        proof {
                            lemma_value_at(tables0, name, index as int);
                        }
                        self.tab_tables[index].value.push(copy);
                        proof {
                            lemma_value_replaced(tables0, self.tab_tables@, index as int);
                        }
                    },
                    None => {
                        let mut miners: Vec<MinerRecord> = Vec::new();
                        miners.push(copy);
                        self.tab_tables.push(
                            Named {
                                name: group_name.clone(),
                                value: ScanningTable::new(group_name, miners),
                            },
                        );
                        proof {
                            lemma_value_absent(tables0, name);
                            lemma_value_added(tables0, self.tab_tables@.last());
                            assert(self.tab_tables@ =~= tables0.push(self.tab_tables@.last()));
                            assert(self.table_of(name).unwrap().miners@ =~= Seq::<
                                MinerRecord,
                            >::empty().push(miner));
                        }
                    },
                }
            },
            ScanningMessage::GroupTabSelected(group_name) => {
                self.active_tab = group_name;
            },
            ScanningMessage::AllScansCompleted => {
                self.is_scanning = false;
            },
            ScanningMessage::StopScan => {
                self.is_scanning = false;
            },
            _ => {},
        }
    }
}

} // verus!
