//! State of the page that follows a scan while it runs.

use crate::main_view::{format_miner_url, miner_url, miners_or_none, one_more};
use crate::named::{
    find_named, is_named_at, lemma_value_absent, lemma_value_added, lemma_value_at,
    lemma_value_replaced, names_distinct, put_named, value_under, Named,
};
use crate::network::scanner::MinerRecord;
use crate::sorting::{sort_miners_by_column, stably_sorted};
use vstd::prelude::*;
use vstd::string::*;

verus! {

/// What the scanning page is told.
#[derive(Debug, Clone, PartialEq, Eq)]
pub enum ScanningMessage {
    MinerFound { group_name: String, miner: MinerRecord },
    GroupCompleted(String),
    GroupError { group_name: String, error: String },
    AllScansCompleted,
    StopScan,
    BackToDashboard,
    /// Open the web page of the miner at this IPv4 address.
    OpenIpInBrowser(u32),
    SortColumn(SortColumn),
}

/// The column miners are sorted by on this page.
#[derive(Debug, Clone, Copy, PartialEq, Eq, Structural)]
pub enum SortColumn {
    IpAddress,
    Model,
    Make,
    Firmware,
    FirmwareVersion,
}

/// Which way a column is sorted on this page.
#[derive(Debug, Clone, Copy, PartialEq, Eq, Structural)]
pub enum SortDirection {
    Ascending,
    Descending,
}

/// What is known of one group's scan.
#[derive(Debug, Clone, PartialEq, Eq)]
pub struct GroupScanStatus {
    pub completed: bool,
    pub error: Option<String>,
    pub miner_count: usize,
}

/// What the caller has to do after a message was applied.
#[derive(Debug, Clone, PartialEq, Eq)]
pub enum ScanningAction {
    Nothing,
    /// Open this address in the browser.
    OpenUrl(String),
}

/// State of the scanning page.
#[derive(Debug, Clone, PartialEq, Eq)]
pub struct ScanningView {
    pub discovered_miners_by_group: Vec<Named<Vec<MinerRecord>>>,
    pub group_status: Vec<Named<GroupScanStatus>>,
    pub total_groups: usize,
    pub completed_groups: usize,
    pub is_scanning: bool,
    /// When the scan began, in milliseconds of the caller's clock.
    pub start_time: Option<u64>,
    pub total_ips_to_scan: usize,
    pub error_messages: Vec<String>,
    pub sort_column: Option<SortColumn>,
    pub sort_direction: SortDirection,
}

impl SortColumn {
    /// The same column, as the sort takes it.
    pub open spec fn general(self) -> crate::sorting::SortColumn {
        match self {
            SortColumn::IpAddress => crate::sorting::SortColumn::IpAddress,
            SortColumn::Model => crate::sorting::SortColumn::Model,
            SortColumn::Make => crate::sorting::SortColumn::Make,
            SortColumn::Firmware => crate::sorting::SortColumn::Firmware,
            SortColumn::FirmwareVersion => crate::sorting::SortColumn::FirmwareVersion,
        }
    }

    pub fn to_general(self) -> (column: crate::sorting::SortColumn)
        ensures
            column == self.general(),
    {
        match self {
            SortColumn::IpAddress => crate::sorting::SortColumn::IpAddress,
            SortColumn::Model => crate::sorting::SortColumn::Model,
            SortColumn::Make => crate::sorting::SortColumn::Make,
            SortColumn::Firmware => crate::sorting::SortColumn::Firmware,
            SortColumn::FirmwareVersion => crate::sorting::SortColumn::FirmwareVersion,
        }
    }
}

impl SortDirection {
    /// The same direction, as the sort takes it.
    pub open spec fn general(self) -> crate::sorting::SortDirection {
        match self {
            SortDirection::Ascending => crate::sorting::SortDirection::Ascending,
            SortDirection::Descending => crate::sorting::SortDirection::Descending,
        }
    }

    /// The opposite direction.
    pub open spec fn toggled(self) -> SortDirection {
        match self {
            SortDirection::Ascending => SortDirection::Descending,
            SortDirection::Descending => SortDirection::Ascending,
        }
    }

    pub fn to_general(self) -> (direction: crate::sorting::SortDirection)
        ensures
            direction == self.general(),
    {
        match self {
            SortDirection::Ascending => crate::sorting::SortDirection::Ascending,
            SortDirection::Descending => crate::sorting::SortDirection::Descending,
        }
    }
}

/// Whether `status` holds exactly these values.
pub open spec fn closed_with(status: GroupScanStatus, error: Option<Seq<char>>, miner_count: nat) -> bool {
    &&& status.completed
    &&& match status.error {
        Some(text) => error == Some(text@),
        None => error.is_none(),
    }
    &&& status.miner_count == miner_count
}

impl ScanningView {
    /// The status kept for the group named `name`.
    pub open spec fn status_of(self, name: Seq<char>) -> Option<GroupScanStatus> {
        value_under(self.group_status@, name)
    }

    /// The miners found so far in the group named `name`.
    pub open spec fn miners_of(self, name: Seq<char>) -> Option<Vec<MinerRecord>> {
        value_under(self.discovered_miners_by_group@, name)
    }

    /// How many miners were found so far in the group named `name`.
    pub open spec fn miner_total(self, name: Seq<char>) -> nat {
        miners_or_none(self.miners_of(name)).len()
    }

    /// No name occurs twice in a list, and no status counts more miners
    /// than were found in its group.
    pub open spec fn wf(self) -> bool {
        &&& names_distinct(self.discovered_miners_by_group@)
        &&& names_distinct(self.group_status@)
        &&& forall|i: int|
            0 <= i < self.group_status@.len() ==> (
            #[trigger] self.group_status@[i]).value.miner_count <= self.miner_total(
                self.group_status@[i].name@,
            )
    }

    /// The page for a scan of one group over `total_ips` hosts that begins
    /// at `now_ms`.
    pub fn new(total_ips: usize, now_ms: u64) -> (page: Self)
        ensures
            page.wf(),
            page.total_groups == 1,
            page.total_ips_to_scan == total_ips,
            page.start_time == Some(now_ms),
            page.is_scanning,
            page.completed_groups == 0,
            page.discovered_miners_by_group@.len() == 0,
            page.group_status@.len() == 0,
            page.error_messages@.len() == 0,
            page.sort_column == Some(SortColumn::IpAddress),
            page.sort_direction == SortDirection::Ascending,
    {
        Self::new_multi_group(1, total_ips, now_ms)
    }

    /// The page for a scan of `total_groups` groups over `total_ips` hosts
    /// that begins at `now_ms`.
    pub fn new_multi_group(total_groups: usize, total_ips: usize, now_ms: u64) -> (page: Self)
        ensures
            page.wf(),
            page.total_groups == total_groups,
            page.total_ips_to_scan == total_ips,
            page.start_time == Some(now_ms),
            page.is_scanning,
            page.completed_groups == 0,
            page.discovered_miners_by_group@.len() == 0,
            page.group_status@.len() == 0,
            page.error_messages@.len() == 0,
            page.sort_column == Some(SortColumn::IpAddress),
            page.sort_direction == SortDirection::Ascending,
    {
        ScanningView {
            discovered_miners_by_group: Vec::new(),
            group_status: Vec::new(),
            total_groups,
            completed_groups: 0,
            is_scanning: true,
            start_time: Some(now_ms),
            total_ips_to_scan: total_ips,
            error_messages: Vec::new(),
            sort_column: Some(SortColumn::IpAddress),
            sort_direction: SortDirection::Ascending,
        }
    }

    /// A copy of the miners found so far, group by group.
    pub fn get_discovered_miners_by_group(&self) -> (copy: Vec<Named<Vec<MinerRecord>>>)
        ensures
            copy@.len() == self.discovered_miners_by_group@.len(),
            forall|i: int|
                0 <= i < copy@.len() ==> (#[trigger] copy@[i]).name@
                    == self.discovered_miners_by_group@[i].name@ && copy@[i].value@
                    == self.discovered_miners_by_group@[i].value@,
    {
        let mut copy: Vec<Named<Vec<MinerRecord>>> = Vec::new();
        let mut i: usize = 0;
        while i < self.discovered_miners_by_group.len()
            invariant
                i <= self.discovered_miners_by_group.len(),
                copy@.len() == i,
                forall|j: int|
                    0 <= j < i ==> (#[trigger] copy@[j]).name@
                        == self.discovered_miners_by_group@[j].name@ && copy@[j].value@
                        == self.discovered_miners_by_group@[j].value@,
            decreases self.discovered_miners_by_group.len() - i,
        {
            copy.push(
                Named {
                    name: self.discovered_miners_by_group[i].name.clone(),
                    value: crate::config::clone_miners(&self.discovered_miners_by_group[i].value),
                },
            );
            i += 1;
        }
        copy
    }

    /// The mark shown beside the heading of `column`: an arrow up or down
    /// for the column sorted by, nothing for the others.
    pub fn get_sort_indicator(&self, column: SortColumn) -> (mark: &'static str)
        ensures
            mark@ == if self.sort_column == Some(column) {
                match self.sort_direction {
                    SortDirection::Ascending => "▲"@,
                    SortDirection::Descending => "▼"@,
                }
            } else {
                ""@
            },
    {
        let sorted = match self.sort_column {
            Some(current) => current == column,
            None => false,
        };
        if sorted {
            match self.sort_direction {
                SortDirection::Ascending => "▲",
                SortDirection::Descending => "▼",
            }
        } else {
            ""
        }
    }

    /// Sorts `miners` the way the page is set to show them: by the chosen
    /// column in the chosen direction, and by address, ascending, where no
    /// column is chosen.
    pub fn sort_miners(&self, miners: &mut Vec<MinerRecord>)
        ensures
            match self.sort_column {
                Some(column) => stably_sorted(
                    old(miners)@,
                    final(miners)@,
                    column.general(),
                    self.sort_direction.general(),
                ),
                None => stably_sorted(
                    old(miners)@,
                    final(miners)@,
                    crate::sorting::SortColumn::IpAddress,
                    crate::sorting::SortDirection::Ascending,
                ),
            },
    {
        match self.sort_column {
            Some(column) => sort_miners_by_column(
                miners,
                column.to_general(),
                self.sort_direction.to_general(),
            ),
            None => sort_miners_by_column(
                miners,
                crate::sorting::SortColumn::IpAddress,
                crate::sorting::SortDirection::Ascending,
            ),
        }
    }
}

impl ScanningView {
    /// Whether `self` and `other` agree on everything but the miners found
    /// and the status of the groups.
    pub open spec fn same_frame(self, other: ScanningView) -> bool {
        &&& self.total_groups == other.total_groups
        &&& self.completed_groups == other.completed_groups
        &&& self.is_scanning == other.is_scanning
        &&& self.start_time == other.start_time
        &&& self.total_ips_to_scan == other.total_ips_to_scan
        &&& self.error_messages == other.error_messages
        &&& self.sort_column == other.sort_column
        &&& self.sort_direction == other.sort_direction
    }

    /// Whether `self` and `other` hold the same status for every group but
    /// the one named `name`.
    pub open spec fn same_status_but(self, other: ScanningView, name: Seq<char>) -> bool {
        forall|group: Seq<char>|
            group != name ==> #[trigger] self.status_of(group) == other.status_of(group)
    }

    /// What a newly found miner changes: it joins the miners of its group,
    /// and the status of the group, if it has one, counts one miner more.
    pub open spec fn miner_found_step(
        self,
        after: ScanningView,
        group_name: Seq<char>,
        miner: MinerRecord,
    ) -> bool {
        &&& after.same_frame(self)
        &&& after.miners_of(group_name) matches Some(miners) && miners@ == miners_or_none(
            self.miners_of(group_name),
        ).push(miner)
        &&& forall|group: Seq<char>|
            group != group_name ==> #[trigger] after.miners_of(group) == self.miners_of(group)
        &&& match self.status_of(group_name) {
            Some(before) => after.status_of(group_name) == Some(
                GroupScanStatus { miner_count: (before.miner_count + 1) as usize, ..before },
            ),
            None => after.status_of(group_name).is_none(),
        }
        &&& after.same_status_but(self, group_name)
    }

    /// What the end of a group changes: its status is completed, with the
    /// given error if it failed, and counts the miners found in the group;
    /// one more group is completed.
    pub open spec fn group_closed_step(
        self,
        after: ScanningView,
        group_name: Seq<char>,
        error: Option<Seq<char>>,
    ) -> bool {
        &&& after.total_groups == self.total_groups
        &&& after.completed_groups == one_more(self.completed_groups)
        &&& after.is_scanning == self.is_scanning
        &&& after.start_time == self.start_time
        &&& after.total_ips_to_scan == self.total_ips_to_scan
        &&& after.sort_column == self.sort_column
        &&& after.sort_direction == self.sort_direction
        &&& after.discovered_miners_by_group == self.discovered_miners_by_group
        &&& after.status_of(group_name) matches Some(status) && closed_with(
            status,
            error,
            self.miner_total(group_name),
        )
        &&& after.same_status_but(self, group_name)
    }

    /// What choosing a column changes: the direction turns round where the
    /// column was chosen already; otherwise the column is taken, ascending.
    pub open spec fn column_chosen(self, after: ScanningView, column: SortColumn) -> bool {
        after == if self.sort_column == Some(column) {
            ScanningView { sort_direction: self.sort_direction.toggled(), ..self }
        } else {
            ScanningView {
                sort_column: Some(column),
                sort_direction: SortDirection::Ascending,
                ..self
            }
        }
    }

    /// What applying `message` leaves of the page `self`.
    pub open spec fn applied(self, after: ScanningView, message: ScanningMessage) -> bool {
        match message {
            ScanningMessage::MinerFound { group_name, miner } => self.miner_found_step(
                after,
                group_name@,
                miner,
            ),
            ScanningMessage::GroupCompleted(group_name) => self.group_closed_step(
                after,
                group_name@,
                None,
            ) && after.error_messages == self.error_messages,
            ScanningMessage::GroupError { group_name, error } => {
                &&& self.group_closed_step(after, group_name@, Some(error@))
                &&& after.error_messages@.len() == self.error_messages@.len() + 1
                &&& forall|i: int|
                    0 <= i < self.error_messages@.len() ==> (#[trigger] after.error_messages@[i])
                        == self.error_messages@[i]
                &&& after.error_messages@.last()@ == group_name@ + ": "@ + error@
            },
            ScanningMessage::AllScansCompleted | ScanningMessage::StopScan => after
                == (ScanningView { is_scanning: false, ..self }),
            ScanningMessage::BackToDashboard | ScanningMessage::OpenIpInBrowser(_) => after
                == self,
            ScanningMessage::SortColumn(column) => self.column_chosen(after, column),
        }
    }

    /// What the caller has to do after `message`: open the miner's page
    /// for a request to do so, nothing otherwise.
    pub open spec fn action_for(message: ScanningMessage, action: ScanningAction) -> bool {
        match message {
            ScanningMessage::OpenIpInBrowser(ip) => action matches ScanningAction::OpenUrl(url)
                && url@ == miner_url(ip),
            _ => action is Nothing,
        }
    }

    /// The number of miners found so far in the group named `group_name`.
    fn count_miners(&self, group_name: &str) -> (count: usize)
        requires
            self.wf(),
        ensures
            count as nat == self.miner_total(group_name@),
    {
        match find_named(&self.discovered_miners_by_group, group_name) {
            Some(index) => {
                proof {
                    lemma_value_at(self.discovered_miners_by_group@, group_name@, index as int);
                }
                self.discovered_miners_by_group[index].value.len()
            },
            None => {
                proof {
                    lemma_value_absent(self.discovered_miners_by_group@, group_name@);
                }
                0
            },
        }
    }

    /// Puts a closing status under `group_name` and counts the group as
    /// completed.
    fn close_group(&mut self, group_name: &str, error: Option<String>)
        requires
            old(self).wf(),
        ensures
            final(self).wf(),
            old(self).group_closed_step(
                *final(self),
                group_name@,
                match error {
                    Some(text) => Some(text@),
                    None => None,
                },
            ),
            final(self).error_messages == old(self).error_messages,
    {
        let ghost status0 = self.group_status@;
        let miner_count = self.count_miners(group_name);
        put_named(
            &mut self.group_status,
            group_name,
            GroupScanStatus { completed: true, error, miner_count },
        );
        if self.completed_groups < usize::MAX {
            self.completed_groups = self.completed_groups + 1;
        }
        proof {
            let after = *self;
            assert forall|i: int| 0 <= i < after.group_status@.len() implies (
            #[trigger] after.group_status@[i]).value.miner_count <= after.miner_total(
                after.group_status@[i].name@,
            ) by {
                let entry = after.group_status@[i];
                assert(is_named_at(after.group_status@, entry.name@, i));
                lemma_value_at(after.group_status@, entry.name@, i);
                if entry.name@ != group_name@ {
                    assert(after.status_of(entry.name@) == old(self).status_of(entry.name@));
                    let j = choose|j: int| is_named_at(status0, entry.name@, j);
                    lemma_value_at(status0, entry.name@, j);
                    assert(status0[j].value.miner_count <= old(self).miner_total(status0[j].name@));
                }
            }
        }
    }

    /// Applies a message to the page and says what is to be done outside
    /// of it.
    pub fn update(&mut self, message: ScanningMessage) -> (action: ScanningAction)
        requires
            old(self).wf(),
        ensures
            final(self).wf(),
            old(self).applied(*final(self), message),
            Self::action_for(message, action),
    {
        match message {
            ScanningMessage::MinerFound { group_name, miner } => {
                let ghost name = group_name@;
                let ghost miners0 = self.discovered_miners_by_group@;
                let ghost status0 = self.group_status@;
                match find_named(&self.discovered_miners_by_group, group_name.as_str()) {
                    Some(index) => {
                        proof {
                            lemma_value_at(miners0, name, index as int);
                        }
                        self.discovered_miners_by_group[index].value.push(miner);
                        proof {
                            lemma_value_replaced(
                                miners0,
                                self.discovered_miners_by_group@,
                                index as int,
                            );
                        }
                    },
                    None => {
                        let mut miners: Vec<MinerRecord> = Vec::new();
                        miners.push(miner);
                        self.discovered_miners_by_group.push(
                            Named { name: group_name.clone(), value: miners },
                        );
                        proof {
                            lemma_value_absent(miners0, name);
                            lemma_value_added(miners0, self.discovered_miners_by_group@.last());
                            assert(self.discovered_miners_by_group@ =~= miners0.push(
                                self.discovered_miners_by_group@.last(),
                            ));
                            assert(self.miners_of(name).unwrap()@ =~= Seq::<
                                MinerRecord,
                            >::empty().push(miner));
                        }
                    },
                }
                let ghost middle = *self;
                assert(middle.miner_total(name) == old(self).miner_total(name) + 1);
                match find_named(&self.group_status, group_name.as_str()) {
                    Some(index) => {
                        proof {
                            lemma_value_at(status0, name, index as int);
                            assert(status0[index as int].value.miner_count <= old(
                                self,
                            ).miner_total(status0[index as int].name@));
                        }
                        let count = self.group_status[index].value.miner_count;
                        assert(count < usize::MAX) by {
                            let found = middle.miners_of(name).unwrap();
                            assert(found@.len() == found.len());
                        }
                        self.group_status[index].value.miner_count = count + 1;
                        proof {
                            lemma_value_replaced(status0, self.group_status@, index as int);
                        }
                    },
                    None => {
                        proof {
                            lemma_value_absent(status0, name);
                        }
                    },
                }
                proof {
                    let after = *self;
                    assert forall|i: int| 0 <= i < after.group_status@.len() implies (
                    #[trigger] after.group_status@[i]).value.miner_count <= after.miner_total(
                        after.group_status@[i].name@,
                    ) by {
                        let entry = after.group_status@[i];
                        if entry.name@ == name {
                            assert(is_named_at(after.group_status@, name, i));
                            lemma_value_at(after.group_status@, name, i);
                        } else {
                            assert(entry == status0[i]);
                            assert(status0[i].value.miner_count <= old(self).miner_total(
                                status0[i].name@,
                            ));
                            assert(after.miners_of(entry.name@) == old(self).miners_of(
                                entry.name@,
                            ));
                        }
                    }
                }
                ScanningAction::Nothing
            },
            ScanningMessage::GroupCompleted(group_name) => {
                self.close_group(group_name.as_str(), None);
                ScanningAction::Nothing
            },
            ScanningMessage::GroupError { group_name, error } => {
                let mut line = group_name.clone();
                line.append(": ");
                line.append(error.as_str());
                self.close_group(group_name.as_str(), Some(error));
                let ghost closed = *self;
                self.error_messages.push(line);
                proof {
                    let after = *self;
                    assert(after.status_of(group_name@) == closed.status_of(group_name@));
                    assert forall|group: Seq<char>|
                        group != group_name@ implies #[trigger] after.status_of(group) == old(
                        self,
                    ).status_of(group) by {
                        assert(closed.status_of(group) == old(self).status_of(group));
                    }
                    assert forall|i: int| 0 <= i < after.group_status@.len() implies (
                    #[trigger] after.group_status@[i]).value.miner_count <= after.miner_total(
                        after.group_status@[i].name@,
                    ) by {
                        assert(closed.group_status@[i].value.miner_count <= closed.miner_total(
                            closed.group_status@[i].name@,
                        ));
                    }
                }
                ScanningAction::Nothing
            },
            ScanningMessage::AllScansCompleted => {
                self.is_scanning = false;
                ScanningAction::Nothing
            },
            ScanningMessage::StopScan => {
                self.is_scanning = false;
                ScanningAction::Nothing
            },
            ScanningMessage::BackToDashboard => ScanningAction::Nothing,
            ScanningMessage::OpenIpInBrowser(ip) => ScanningAction::OpenUrl(format_miner_url(ip)),
            ScanningMessage::SortColumn(column) => {
                let same = match self.sort_column {
                    Some(current) => current == column,
                    None => false,
                };
                if same {
                    self.sort_direction = match self.sort_direction {
                        SortDirection::Ascending => SortDirection::Descending,
                        SortDirection::Descending => SortDirection::Ascending,
                    };
                } else {
                    self.sort_column = Some(column);
                    self.sort_direction = SortDirection::Ascending;
                }
                ScanningAction::Nothing
            },
        }
    }
}

} // verus!
