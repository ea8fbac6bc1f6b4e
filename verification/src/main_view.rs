//! State of the main view: what a running scan has reported so far, group
//! by group, and how the results are shown.
//!
//! The view itself is drawn elsewhere. Here every message is applied to the
//! state, and what has to happen outside of it comes back as an action.

use crate::config::{clone_miners, AppConfig, ScanGroup};
use crate::network::{estimate_ip_count, estimated_hosts};
use crate::network::scanner::capped;
use crate::named::{
    find_named, is_named_at, lemma_value_absent, lemma_value_added, lemma_value_at,
    lemma_value_replaced, names_distinct, value_under, Named,
};
use crate::network::scanner::MinerRecord;
use crate::sorting::{SortColumn, SortDirection};
use crate::text::{decimal_text, push_decimal};
use vstd::prelude::*;
use vstd::string::*;

verus! {

/// What is known of one group's scan.
#[derive(Debug, Clone, PartialEq, Eq)]
pub struct GroupScanStatus {
    pub completed: bool,
    pub error: Option<String>,
    pub miner_count: usize,
    pub total_ips: usize,
    pub scanned_ips: usize,
}

/// What the main view is told.
#[derive(Debug, Clone, PartialEq, Eq)]
pub enum MainViewMessage {
    OpenNetworkConfig,
    StartScan,
    StopScan,
    AddGroup,
    /// Open the web page of the miner at this IPv4 address.
    OpenIpInBrowser(u32),
    /// Show the details of the miner at this IPv4 address.
    OpenDeviceDetail(u32),
    MinerFound { group_name: String, miner: MinerRecord },
    IpScanned { group_name: String, total_ips: usize, scanned_count: usize },
    GroupCompleted(String),
    GroupError { group_name: String, error: String },
    AllScansCompleted,
    SortColumn(SortColumn),
    ToggleGroupCollapse(String),
}

/// What the caller has to do after a message was applied.
#[derive(Debug, Clone, PartialEq, Eq)]
pub enum MainViewAction {
    /// Nothing.
    Nothing,
    /// Open this address in the browser.
    OpenUrl(String),
    /// Write the configuration to disk.
    SaveConfig,
}

/// State of the main view.
#[derive(Debug, Clone, PartialEq, Eq)]
pub struct MainView {
    pub app_config: AppConfig,
    pub is_scanning: bool,
    /// Miners found by the running scan, under their group's name.
    pub discovered_miners_by_group: Vec<Named<Vec<MinerRecord>>>,
    /// Status of each group heard of in the running scan, under its name.
    pub group_status: Vec<Named<GroupScanStatus>>,
    pub total_groups: usize,
    pub completed_groups: usize,
    /// When the running scan began, in milliseconds of the caller's clock.
    pub start_time: Option<u64>,
    pub total_ips_to_scan: usize,
    pub error_messages: Vec<String>,
    pub sort_column: Option<SortColumn>,
    pub sort_direction: SortDirection,
    /// Names of the groups whose results are folded away.
    pub collapsed_groups: Vec<String>,
}

/// The IPv4 address `ip` in dotted notation.
pub open spec fn dotted_quad(ip: u32) -> Seq<char> {
    decimal_text((ip / 0x100_0000) as nat) + "."@ + decimal_text(((ip / 0x1_0000) % 256) as nat)
        + "."@ + decimal_text(((ip / 0x100) % 256) as nat) + "."@ + decimal_text(
        (ip % 256) as nat,
    )
}

/// The address of the web page of the miner at `ip`.
pub open spec fn miner_url(ip: u32) -> Seq<char> {
    "http://"@ + dotted_quad(ip)
}

/// Writes the address of the web page of the miner at `ip`.
pub fn format_miner_url(ip: u32) -> (url: String)
    ensures
        url@ == miner_url(ip),
{
    let mut url = String::from_str("http://");
    push_decimal(&mut url, (ip / 0x100_0000) as u64);
    url.append(".");
    push_decimal(&mut url, ((ip / 0x1_0000) % 256) as u64);
    url.append(".");
    push_decimal(&mut url, ((ip / 0x100) % 256) as u64);
    url.append(".");
    push_decimal(&mut url, (ip % 256) as u64);
    assert(url@ =~= miner_url(ip));
    url
}

/// The miners of `list`, or none where there is no list.
pub open spec fn miners_or_none(list: Option<Vec<MinerRecord>>) -> Seq<MinerRecord> {
    match list {
        Some(miners) => miners@,
        None => Seq::empty(),
    }
}

/// Whether `status` holds exactly these values.
pub open spec fn status_is(
    status: GroupScanStatus,
    completed: bool,
    error: Option<Seq<char>>,
    miner_count: nat,
    total_ips: nat,
    scanned_ips: nat,
) -> bool {
    &&& status.completed == completed
    &&& match status.error {
        Some(text) => error == Some(text@),
        None => error.is_none(),
    }
    &&& status.miner_count == miner_count
    &&& status.total_ips == total_ips
    &&& status.scanned_ips == scanned_ips
}

/// Whether no text occurs twice in `names`.
pub open spec fn texts_distinct(names: Seq<String>) -> bool {
    forall|i: int, j: int|
        0 <= i < j < names.len() ==> (#[trigger] names[i])@ != (#[trigger] names[j])@
}

/// Whether `name` is among `names`.
pub open spec fn has_text(names: Seq<String>, name: Seq<char>) -> bool {
    exists|i: int| 0 <= i < names.len() && (#[trigger] names[i])@ == name
}

/// The place of `name` among `names`.
pub fn find_text(names: &Vec<String>, name: &str) -> (place: Option<usize>)
    ensures
        match place {
            Some(index) => index < names@.len() && names@[index as int]@ == name@,
            None => !has_text(names@, name@),
        },
{
    let mut i: usize = 0;
    while i < names.len()
        invariant
            i <= names.len(),
            forall|j: int| 0 <= j < i ==> (#[trigger] names@[j])@ != name@,
        decreases names.len() - i,
    {
        if crate::text::same_text(names[i].as_str(), name) {
            return Some(i);
        }
        i += 1;
    }
    None
}

impl MainView {
    /// The status kept for the group named `name`.
    pub open spec fn status_of(self, name: Seq<char>) -> Option<GroupScanStatus> {
        value_under(self.group_status@, name)
    }

    /// The miners found so far in the group named `name`.
    pub open spec fn miners_of(self, name: Seq<char>) -> Option<Vec<MinerRecord>> {
        value_under(self.discovered_miners_by_group@, name)
    }

    /// How many miners were found so far in the group named `name`.
    pub open spec fn miner_total(self, name: Seq<char>) -> nat {
        miners_or_none(self.miners_of(name)).len()
    }

    /// No name occurs twice in a list, and no status counts more miners
    /// than were found in its group.
    pub open spec fn wf(self) -> bool {
        &&& self.app_config.wf()
        &&& names_distinct(self.discovered_miners_by_group@)
        &&& names_distinct(self.group_status@)
        &&& texts_distinct(self.collapsed_groups@)
        &&& forall|i: int|
            0 <= i < self.group_status@.len() ==> (
            #[trigger] self.group_status@[i]).value.miner_count <= self.miner_total(
                self.group_status@[i].name@,
            )
    }

    /// Whether `self` and `other` agree on everything but what the running
    /// scan has reported: the miners found and the status of the groups.
    pub open spec fn same_frame(self, other: MainView) -> bool {
        &&& self.app_config == other.app_config
        &&& self.is_scanning == other.is_scanning
        &&& self.total_groups == other.total_groups
        &&& self.completed_groups == other.completed_groups
        &&& self.start_time == other.start_time
        &&& self.total_ips_to_scan == other.total_ips_to_scan
        &&& self.error_messages == other.error_messages
        &&& self.sort_column == other.sort_column
        &&& self.sort_direction == other.sort_direction
        &&& self.collapsed_groups == other.collapsed_groups
    }

    /// Whether `self` and `other` hold the same miners for every group but
    /// the one named `name`.
    pub open spec fn same_miners_but(self, other: MainView, name: Seq<char>) -> bool {
        forall|group: Seq<char>|
            group != name ==> #[trigger] self.miners_of(group) == other.miners_of(group)
    }

    /// Whether `self` and `other` hold the same status for every group but
    /// the one named `name`.
    pub open spec fn same_status_but(self, other: MainView, name: Seq<char>) -> bool {
        forall|group: Seq<char>|
            group != name ==> #[trigger] self.status_of(group) == other.status_of(group)
    }

    /// A view that shows `app_config`, with no scan running, sorted by
    /// address.
    pub fn new(app_config: AppConfig) -> (view: Self)
        requires
            app_config.wf(),
        ensures
            view.wf(),
            view.app_config == app_config,
            !view.is_scanning,
            view.discovered_miners_by_group@.len() == 0,
            view.group_status@.len() == 0,
            view.total_groups == 0,
            view.completed_groups == 0,
            view.start_time.is_none(),
            view.total_ips_to_scan == 0,
            view.error_messages@.len() == 0,
            view.sort_column == Some(SortColumn::IpAddress),
            view.sort_direction == SortDirection::Ascending,
            view.collapsed_groups@.len() == 0,
    {
        MainView {
            app_config,
            is_scanning: false,
            discovered_miners_by_group: Vec::new(),
            group_status: Vec::new(),
            total_groups: 0,
            completed_groups: 0,
            start_time: None,
            total_ips_to_scan: 0,
            error_messages: Vec::new(),
            sort_column: Some(SortColumn::IpAddress),
            sort_direction: SortDirection::Ascending,
            collapsed_groups: Vec::new(),
        }
    }

    pub fn set_app_config(&mut self, config: AppConfig)
        ensures
            *final(self) == (MainView { app_config: config, ..*old(self) }),
    {
        self.app_config = config;
    }

    pub fn get_app_config(&self) -> (config: &AppConfig)
        ensures
            *config == self.app_config,
    {
        &self.app_config
    }

    /// What a newly found miner changes: it joins the miners of its group,
    /// and the group's status counts one miner more. A group not heard of
    /// before gets a status that counts this one miner.
    pub open spec fn miner_found_step(
        self,
        after: MainView,
        group_name: Seq<char>,
        miner: MinerRecord,
    ) -> bool {
        &&& after.same_frame(self)
        &&& after.miners_of(group_name) matches Some(miners) && miners@ == miners_or_none(
            self.miners_of(group_name),
        ).push(miner)
        &&& after.same_miners_but(self, group_name)
        &&& after.status_of(group_name) matches Some(status) && match self.status_of(group_name) {
            Some(before) => status == (GroupScanStatus {
                miner_count: (before.miner_count + 1) as usize,
                ..before
            }),
            None => status_is(status, false, None, 1, 0, 0),
        }
        &&& after.same_status_but(self, group_name)
    }

    /// Takes note of a miner found in the group named `group_name`.
    pub fn miner_found(&mut self, group_name: String, miner: MinerRecord)
        requires
            old(self).wf(),
        ensures
            final(self).wf(),
            old(self).miner_found_step(*final(self), group_name@, miner),
    {
        let ghost name = group_name@;
        let ghost miners0 = self.discovered_miners_by_group@;
        let ghost status0 = self.group_status@;
        match find_named(&self.discovered_miners_by_group, group_name.as_str()) {
            Some(index) => {
                proof {
                    lemma_value_at(miners0, name, index as int);
                }
                self.discovered_miners_by_group[index].value.push(miner);
                proof {
                    lemma_value_replaced(miners0, self.discovered_miners_by_group@, index as int);
                }
            },
            None => {
                let mut miners: Vec<MinerRecord> = Vec::new();
                miners.push(miner);
                self.discovered_miners_by_group.push(
                    Named { name: group_name.clone(), value: miners },
                );
                proof {
                    lemma_value_absent(miners0, name);
                    lemma_value_added(miners0, self.discovered_miners_by_group@.last());
                    assert(self.discovered_miners_by_group@ =~= miners0.push(
                        self.discovered_miners_by_group@.last(),
                    ));
                    assert(self.miners_of(name).unwrap()@ =~= Seq::<MinerRecord>::empty().push(
                        miner,
                    ));
                }
            },
        }
        let ghost middle = *self;
        assert(middle.miner_total(name) == old(self).miner_total(name) + 1);
        assert(middle.same_miners_but(*old(self), name));
        match find_named(&self.group_status, group_name.as_str()) {
            Some(index) => {
                proof {
                    lemma_value_at(status0, name, index as int);
                    assert(status0[index as int].value.miner_count <= old(self).miner_total(
                        status0[index as int].name@,
                    ));
                }
                let count = self.group_status[index].value.miner_count;
                assert(count < usize::MAX) by {
                    let found = middle.miners_of(name).unwrap();
                    assert(found@.len() == found.len());
                }
                self.group_status[index].value.miner_count = count + 1;
                proof {
                    lemma_value_replaced(status0, self.group_status@, index as int);
                }
            },
            None => {
                self.group_status.push(
                    Named {
                        name: group_name,
                        value: GroupScanStatus {
                            completed: false,
                            error: None,
                            miner_count: 1,
                            total_ips: 0,
                            scanned_ips: 0,
                        },
                    },
                );
                proof {
                    lemma_value_absent(status0, name);
                    lemma_value_added(status0, self.group_status@.last());
                    assert(self.group_status@ =~= status0.push(self.group_status@.last()));
                }
            },
        }
        proof {
            let after = *self;
            assert forall|i: int| 0 <= i < after.group_status@.len() implies (
            #[trigger] after.group_status@[i]).value.miner_count <= after.miner_total(
                after.group_status@[i].name@,
            ) by {
                let entry = after.group_status@[i];
                if entry.name@ == name {
                    assert(is_named_at(after.group_status@, name, i));
                    lemma_value_at(after.group_status@, name, i);
                } else {
                    assert(i < status0.len());
                    assert(entry == status0[i]);
                    assert(status0[i].value.miner_count <= old(self).miner_total(status0[i].name@));
                    assert(after.miners_of(entry.name@) == old(self).miners_of(entry.name@));
                }
            }
        }
    }
}

/// One more, unless the count is already at its limit.
pub open spec fn one_more(count: usize) -> usize {
    if count < usize::MAX {
        (count + 1) as usize
    } else {
        count
    }
}

impl MainView {
    /// What a progress report changes: the group's status takes over the
    /// total and the count. A group not heard of before gets a status with
    /// no miners.
    pub open spec fn ip_scanned_step(
        self,
        after: MainView,
        group_name: Seq<char>,
        total_ips: usize,
        scanned_count: usize,
    ) -> bool {
        &&& after.same_frame(self)
        &&& after.discovered_miners_by_group == self.discovered_miners_by_group
        &&& after.status_of(group_name) matches Some(status) && match self.status_of(group_name) {
            Some(before) => status == (GroupScanStatus {
                total_ips,
                scanned_ips: scanned_count,
                ..before
            }),
            None => status_is(status, false, None, 0, total_ips as nat, scanned_count as nat),
        }
        &&& after.same_status_but(self, group_name)
    }

    /// Takes note of the progress of the group named `group_name`.
    pub fn ip_scanned(&mut self, group_name: String, total_ips: usize, scanned_count: usize)
        requires
            old(self).wf(),
        ensures
            final(self).wf(),
            old(self).ip_scanned_step(*final(self), group_name@, total_ips, scanned_count),
    {
        let ghost name = group_name@;
        let ghost status0 = self.group_status@;
        match find_named(&self.group_status, group_name.as_str()) {
            Some(index) => {
                proof {
                    lemma_value_at(status0, name, index as int);
                }
                self.group_status[index].value.total_ips = total_ips;
                self.group_status[index].value.scanned_ips = scanned_count;
                proof {
                    lemma_value_replaced(status0, self.group_status@, index as int);
                }
            },
            None => {
                self.group_status.push(
                    Named {
                        name: group_name,
                        value: GroupScanStatus {
                            completed: false,
                            error: None,
                            miner_count: 0,
                            total_ips,
                            scanned_ips: scanned_count,
                        },
                    },
                );
                proof {
                    lemma_value_absent(status0, name);
                    lemma_value_added(status0, self.group_status@.last());
                    assert(self.group_status@ =~= status0.push(self.group_status@.last()));
                }
            },
        }
        proof {
            let after = *self;
            assert forall|i: int| 0 <= i < after.group_status@.len() implies (
            #[trigger] after.group_status@[i]).value.miner_count <= after.miner_total(
                after.group_status@[i].name@,
            ) by {
                if i < status0.len() {
                    assert(after.group_status@[i].name@ == status0[i].name@);
                    assert(status0[i].value.miner_count <= old(self).miner_total(status0[i].name@));
                }
            }
        }
    }

    /// The totals that the status of the group named `name` holds: zero
    /// where the group has no status.
    pub open spec fn totals_of(self, name: Seq<char>) -> (usize, usize) {
        match self.status_of(name) {
            Some(status) => (status.total_ips, status.scanned_ips),
            None => (0, 0),
        }
    }

    /// What the end of a group changes: its status is completed, with the
    /// given error if it failed, and counts the miners found in the group;
    /// one more group is completed.
    pub open spec fn group_closed_step(
        self,
        after: MainView,
        group_name: Seq<char>,
        error: Option<Seq<char>>,
    ) -> bool {
        &&& after.is_scanning == self.is_scanning
        &&& after.total_groups == self.total_groups
        &&& after.completed_groups == one_more(self.completed_groups)
        &&& after.start_time == self.start_time
        &&& after.total_ips_to_scan == self.total_ips_to_scan
        &&& after.sort_column == self.sort_column
        &&& after.sort_direction == self.sort_direction
        &&& after.collapsed_groups == self.collapsed_groups
        &&& after.discovered_miners_by_group == self.discovered_miners_by_group
        &&& after.status_of(group_name) matches Some(status) && status_is(
            status,
            true,
            error,
            self.miner_total(group_name),
            self.totals_of(group_name).0 as nat,
            self.totals_of(group_name).1 as nat,
        )
        &&& after.same_status_but(self, group_name)
    }

    /// Puts a closing status under `group_name`.
    fn close_status(&mut self, group_name: &str, error: Option<String>)
        requires
            old(self).wf(),
        ensures
            final(self).wf(),
            final(self).same_frame(*old(self)),
            final(self).discovered_miners_by_group == old(self).discovered_miners_by_group,
            final(self).status_of(group_name@) matches Some(status) && status_is(
                status,
                true,
                match error {
                    Some(text) => Some(text@),
                    None => None,
                },
                old(self).miner_total(group_name@),
                old(self).totals_of(group_name@).0 as nat,
                old(self).totals_of(group_name@).1 as nat,
            ),
            final(self).same_status_but(*old(self), group_name@),
    {
        let ghost name = group_name@;
        let ghost status0 = self.group_status@;
        let ghost miners0 = self.discovered_miners_by_group@;
        let miner_count: usize = match find_named(&self.discovered_miners_by_group, group_name) {
            Some(index) => {
                proof {
                    lemma_value_at(miners0, name, index as int);
                }
                self.discovered_miners_by_group[index].value.len()
            },
            None => {
                proof {
                    lemma_value_absent(miners0, name);
                }
                0
            },
        };
        match find_named(&self.group_status, group_name) {
            Some(index) => {
                proof {
                    lemma_value_at(status0, name, index as int);
                }
                let total_ips = self.group_status[index].value.total_ips;
                let scanned_ips = self.group_status[index].value.scanned_ips;
                self.group_status[index].value = GroupScanStatus {
                    completed: true,
                    error,
                    miner_count,
                    total_ips,
                    scanned_ips,
                };
                proof {
                    lemma_value_replaced(status0, self.group_status@, index as int);
                }
            },
            None => {
                self.group_status.push(
                    Named {
                        name: String::from_str(group_name),
                        value: GroupScanStatus {
                            completed: true,
                            error,
                            miner_count,
                            total_ips: 0,
                            scanned_ips: 0,
                        },
                    },
                );
                proof {
                    lemma_value_absent(status0, name);
                    lemma_value_added(status0, self.group_status@.last());
                    assert(self.group_status@ =~= status0.push(self.group_status@.last()));
                }
            },
        }
        proof {
            let after = *self;
            assert forall|i: int| 0 <= i < after.group_status@.len() implies (
            #[trigger] after.group_status@[i]).value.miner_count <= after.miner_total(
                after.group_status@[i].name@,
            ) by {
                let entry = after.group_status@[i];
                if entry.name@ == name {
                    assert(is_named_at(after.group_status@, name, i));
                    lemma_value_at(after.group_status@, name, i);
                } else {
                    assert(i < status0.len());
                    assert(entry == status0[i]);
                    assert(status0[i].value.miner_count <= old(self).miner_total(status0[i].name@));
                }
            }
        }
    }

    /// Counts one more completed group.
    fn count_completed(&mut self)
        ensures
            *final(self) == (MainView {
                completed_groups: one_more(old(self).completed_groups),
                ..*old(self)
            }),
    {
        if self.completed_groups < usize::MAX {
            self.completed_groups = self.completed_groups + 1;
        }
    }

    /// Takes note that the group named `group_name` ended well: its status
    /// is closed and its miners go into the configuration as the results of
    /// the last scan.
    pub fn group_completed(&mut self, group_name: String)
        requires
            old(self).wf(),
        ensures
            final(self).wf(),
            old(self).group_closed_step(*final(self), group_name@, None),
            final(self).error_messages == old(self).error_messages,
            final(self).app_config.stored_under(group_name@) matches Some(stored) && stored@
                == miners_or_none(old(self).miners_of(group_name@)),
            forall|other: Seq<char>|
                other != group_name@ ==> #[trigger] final(self).app_config.stored_under(other)
                    == old(self).app_config.stored_under(other),
            final(self).app_config.version == old(self).app_config.version,
            final(self).app_config.scan_groups == old(self).app_config.scan_groups,
    {
        self.close_status(group_name.as_str(), None);
        let ghost closed = *self;
        self.count_completed();
        let ghost miners0 = self.discovered_miners_by_group@;
        let results: Vec<MinerRecord> = match find_named(
            &self.discovered_miners_by_group,
            group_name.as_str(),
        ) {
            Some(index) => {
                proof {
                    lemma_value_at(miners0, group_name@, index as int);
                }
                clone_miners(&self.discovered_miners_by_group[index].value)
            },
            None => {
                proof {
                    lemma_value_absent(miners0, group_name@);
                }
                Vec::new()
            },
        };
        self.app_config.store_scan_results(group_name.as_str(), results);
        proof {
            let after = *self;
            assert(after.status_of(group_name@) == closed.status_of(group_name@));
            assert forall|group: Seq<char>| group != group_name@ implies #[trigger] after.status_of(
                group,
            ) == old(self).status_of(group) by {
                assert(closed.status_of(group) == old(self).status_of(group));
            }
            assert forall|i: int| 0 <= i < after.group_status@.len() implies (
            #[trigger] after.group_status@[i]).value.miner_count <= after.miner_total(
                after.group_status@[i].name@,
            ) by {
                assert(closed.group_status@[i].value.miner_count <= closed.miner_total(
                    closed.group_status@[i].name@,
                ));
            }
        }
    }

    /// The line shown for the error of a group.
    pub open spec fn error_line(group_name: Seq<char>, error: Seq<char>) -> Seq<char> {
        group_name + ": "@ + error
    }

    /// Takes note that the group named `group_name` ended with `error`: its
    /// status is closed with the error, and the error joins the list shown.
    pub fn group_error(&mut self, group_name: String, error: String)
        requires
            old(self).wf(),
        ensures
            final(self).wf(),
            old(self).group_closed_step(*final(self), group_name@, Some(error@)),
            final(self).app_config == old(self).app_config,
            final(self).error_messages@.len() == old(self).error_messages@.len() + 1,
            forall|i: int|
                0 <= i < old(self).error_messages@.len() ==> (
                #[trigger] final(self).error_messages@[i]) == old(self).error_messages@[i],
            final(self).error_messages@.last()@ == Self::error_line(group_name@, error@),
    {
        let mut line = group_name.clone();
        line.append(": ");
        line.append(error.as_str());
        self.close_status(group_name.as_str(), Some(error));
        let ghost closed = *self;
        self.error_messages.push(line);
        self.count_completed();
        proof {
            let after = *self;
            assert(after.status_of(group_name@) == closed.status_of(group_name@));
            assert forall|group: Seq<char>| group != group_name@ implies #[trigger] after.status_of(
                group,
            ) == old(self).status_of(group) by {
                assert(closed.status_of(group) == old(self).status_of(group));
            }
            assert forall|i: int| 0 <= i < after.group_status@.len() implies (
            #[trigger] after.group_status@[i]).value.miner_count <= after.miner_total(
                after.group_status@[i].name@,
            ) by {
                assert(closed.group_status@[i].value.miner_count <= closed.miner_total(
                    closed.group_status@[i].name@,
                ));
            }
        }
    }
}

/// The hosts that the enabled groups of `groups` are estimated to span, a
/// refused range counting as empty.
pub open spec fn enabled_hosts(groups: Seq<ScanGroup>) -> nat
    decreases groups.len(),
{
    if groups.len() == 0 {
        0
    } else if groups.last().enabled {
        enabled_hosts(groups.drop_last()) + estimated_hosts(groups.last().network_range@)
    } else {
        enabled_hosts(groups.drop_last())
    }
}

/// Adds up the hosts that the enabled groups of `groups` are estimated to
/// span; a sum beyond the largest machine word stays at that word.
pub fn estimate_enabled_hosts(groups: &Vec<ScanGroup>) -> (total: usize)
    ensures
        total as nat == capped(enabled_hosts(groups@)),
{
    let mut total: usize = 0;
    let mut i: usize = 0;
    while i < groups.len()
        invariant
            i <= groups.len(),
            total as nat == capped(enabled_hosts(groups@.take(i as int))),
        decreases groups.len() - i,
    {
        proof {
            let front = groups@.take(i + 1);
            assert(front.drop_last() =~= groups@.take(i as int));
            assert(front.last() == groups@[i as int]);
        }
        if groups[i].enabled {
            let count = estimate_ip_count(groups[i].network_range.as_str());
            if count > usize::MAX - total {
                total = usize::MAX;
            } else {
                total = total + count;
            }
        }
        i += 1;
    }
    assert(groups@.take(groups.len() as int) =~= groups@);
    total
}

impl MainView {
    /// What the start of a scan of `group_count` groups at time `now_ms`
    /// leaves: a running scan with nothing reported yet, no results of an
    /// earlier scan, and the number of hosts the enabled groups span.
    pub open spec fn scan_started(self, after: MainView, group_count: nat, now_ms: u64) -> bool {
        &&& after.is_scanning
        &&& after.start_time == Some(now_ms)
        &&& after.total_groups == group_count
        &&& after.completed_groups == 0
        &&& after.discovered_miners_by_group@.len() == 0
        &&& after.group_status@.len() == 0
        &&& after.error_messages@.len() == 0
        &&& after.app_config.last_scan_results@.len() == 0
        &&& after.app_config.version == self.app_config.version
        &&& after.app_config.scan_groups == self.app_config.scan_groups
        &&& after.total_ips_to_scan as nat == capped(enabled_hosts(self.app_config.scan_groups@))
        &&& after.sort_column == self.sort_column
        &&& after.sort_direction == self.sort_direction
        &&& after.collapsed_groups == self.collapsed_groups
    }

    /// Begins a scan of the named groups at time `now_ms`.
    pub fn start_scanning(&mut self, groups: Vec<String>, now_ms: u64)
        requires
            old(self).wf(),
        ensures
            final(self).wf(),
            old(self).scan_started(*final(self), groups@.len(), now_ms),
    {
        self.is_scanning = true;
        self.start_time = Some(now_ms);
        self.total_groups = groups.len();
        self.completed_groups = 0;
        self.discovered_miners_by_group.clear();
        self.group_status.clear();
        self.error_messages.clear();
        self.app_config.clear_scan_results();
        self.total_ips_to_scan = estimate_enabled_hosts(&self.app_config.scan_groups);
    }

    /// The names of the enabled groups, in their order.
    pub fn enabled_group_names(&self) -> (names: Vec<String>)
        ensures
            names@.len() == crate::config::enabled_groups(self.app_config.scan_groups@).len(),
            forall|i: int|
                0 <= i < names@.len() ==> (#[trigger] names@[i])@ == crate::config::enabled_groups(
                    self.app_config.scan_groups@,
                )[i].name@,
    {
        let enabled = self.app_config.get_enabled_groups();
        let mut names: Vec<String> = Vec::new();
        let mut i: usize = 0;
        while i < enabled.len()
            invariant
                i <= enabled.len(),
                names@.len() == i,
                forall|j: int| 0 <= j < i ==> (#[trigger] names@[j])@ == enabled@[j].name@,
            decreases enabled.len() - i,
        {
            names.push(enabled[i].name.clone());
            i += 1;
        }
        names
    }

    /// What choosing a column changes: the direction turns round where the
    /// column was chosen already; otherwise the column is taken, ascending.
    pub open spec fn column_chosen(self, after: MainView, column: SortColumn) -> bool {
        after == if self.sort_column == Some(column) {
            MainView { sort_direction: self.sort_direction.toggled(), ..self }
        } else {
            MainView {
                sort_column: Some(column),
                sort_direction: SortDirection::Ascending,
                ..self
            }
        }
    }

    /// Chooses the column to sort by.
    pub fn sort_by(&mut self, column: SortColumn)
        ensures
            old(self).column_chosen(*final(self), column),
    {
        let same = match self.sort_column {
            Some(current) => current == column,
            None => false,
        };
        if same {
            self.sort_direction = self.sort_direction.toggle();
        } else {
            self.sort_column = Some(column);
            self.sort_direction = SortDirection::Ascending;
        }
    }

    /// What folding or unfolding a group changes: the group named `name` is
    /// folded exactly if it was not, and no other group is touched.
    pub open spec fn collapse_toggled(self, after: MainView, name: Seq<char>) -> bool {
        &&& after == (MainView { collapsed_groups: after.collapsed_groups, ..self })
        &&& texts_distinct(after.collapsed_groups@)
        &&& has_text(after.collapsed_groups@, name) == !has_text(self.collapsed_groups@, name)
        &&& forall|other: Seq<char>|
            other != name ==> #[trigger] has_text(after.collapsed_groups@, other) == has_text(
                self.collapsed_groups@,
                other,
            )
    }

    /// Folds the results of the group named `group_name` away, or brings
    /// them back.
    pub fn toggle_group_collapse(&mut self, group_name: String)
        requires
            old(self).wf(),
        ensures
            final(self).wf(),
            old(self).collapse_toggled(*final(self), group_name@),
    {
        let ghost before = self.collapsed_groups@;
        let ghost name = group_name@;
        match find_text(&self.collapsed_groups, group_name.as_str()) {
            Some(index) => {
                self.collapsed_groups.remove(index);
                proof {
                    let after = self.collapsed_groups@;
                    let at = index as int;
                    assert forall|i: int, j: int| 0 <= i < j < after.len() implies (
                    #[trigger] after[i])@ != (#[trigger] after[j])@ by {
                        let bi = if i < at {
                            i
                        } else {
                            i + 1
                        };
                        let bj = if j < at {
                            j
                        } else {
                            j + 1
                        };
                        assert(after[i] == before[bi]);
                        assert(after[j] == before[bj]);
                        assert(before[bi]@ != before[bj]@);
                    }
                    assert(has_text(before, name));
                    if has_text(after, name) {
                        let i = choose|i: int| 0 <= i < after.len() && (#[trigger] after[i])@ == name;
                        let bi = if i < at {
                            i
                        } else {
                            i + 1
                        };
                        assert(after[i] == before[bi]);
                        if bi < at {
                            assert(before[bi]@ != before[at]@);
                        } else {
                            assert(before[at]@ != before[bi]@);
                        }
                    }
                    assert forall|other: Seq<char>| other != name implies #[trigger] has_text(
                        after,
                        other,
                    ) == has_text(before, other) by {
                        if has_text(before, other) {
                            let i = choose|i: int|
                                0 <= i < before.len() && (#[trigger] before[i])@ == other;
                            let ai = if i < at {
                                i
                            } else {
                                i - 1
                            };
                            assert(after[ai] == before[i]);
                        }
                        if has_text(after, other) {
                            let i = choose|i: int|
                                0 <= i < after.len() && (#[trigger] after[i])@ == other;
                            let bi = if i < at {
                                i
                            } else {
                                i + 1
                            };
                            assert(after[i] == before[bi]);
                        }
                    }
                }
            },
            None => {
                self.collapsed_groups.push(group_name);
                proof {
                    let after = self.collapsed_groups@;
                    let last = before.len() as int;
                    assert forall|i: int, j: int| 0 <= i < j < after.len() implies (
                    #[trigger] after[i])@ != (#[trigger] after[j])@ by {
                        assert(after[i] == before[i]);
                        if j < last {
                            assert(after[j] == before[j]);
                            assert(before[i]@ != before[j]@);
                        }
                    }
                    assert(after[last]@ == name);
                    assert forall|other: Seq<char>| other != name implies #[trigger] has_text(
                        after,
                        other,
                    ) == has_text(before, other) by {
                        if has_text(before, other) {
                            let i = choose|i: int|
                                0 <= i < before.len() && (#[trigger] before[i])@ == other;
                            assert(after[i] == before[i]);
                        }
                        if has_text(after, other) {
                            let i = choose|i: int|
                                0 <= i < after.len() && (#[trigger] after[i])@ == other;
                            assert(i < last);
                            assert(after[i] == before[i]);
                        }
                    }
                }
            },
        }
    }
}

impl MainView {
    /// What applying `message` at time `now_ms` leaves of the state `self`.
    pub open spec fn applied(self, after: MainView, message: MainViewMessage, now_ms: u64) -> bool {
        match message {
            MainViewMessage::OpenNetworkConfig
            | MainViewMessage::AddGroup
            | MainViewMessage::OpenDeviceDetail(_)
            | MainViewMessage::OpenIpInBrowser(_) => after == self,
            MainViewMessage::StartScan => if self.is_scanning {
                after == self
            } else {
                self.scan_started(
                    after,
                    crate::config::enabled_groups(self.app_config.scan_groups@).len(),
                    now_ms,
                )
            },
            MainViewMessage::StopScan | MainViewMessage::AllScansCompleted => after == (MainView {
                is_scanning: false,
                ..self
            }),
            MainViewMessage::MinerFound { group_name, miner } => self.miner_found_step(
                after,
                group_name@,
                miner,
            ),
            MainViewMessage::IpScanned {
                group_name,
                total_ips,
                scanned_count,
            } => self.ip_scanned_step(after, group_name@, total_ips, scanned_count),
            MainViewMessage::GroupCompleted(group_name) => {
                &&& self.group_closed_step(after, group_name@, None)
                &&& after.error_messages == self.error_messages
                &&& after.app_config.stored_under(group_name@) matches Some(stored) && stored@
                    == miners_or_none(self.miners_of(group_name@))
                &&& forall|other: Seq<char>|
                    other != group_name@ ==> #[trigger] after.app_config.stored_under(other)
                        == self.app_config.stored_under(other)
                &&& after.app_config.version == self.app_config.version
                &&& after.app_config.scan_groups == self.app_config.scan_groups
            },
            MainViewMessage::GroupError { group_name, error } => {
                &&& self.group_closed_step(after, group_name@, Some(error@))
                &&& after.app_config == self.app_config
                &&& after.error_messages@.len() == self.error_messages@.len() + 1
                &&& forall|i: int|
                    0 <= i < self.error_messages@.len() ==> (#[trigger] after.error_messages@[i])
                        == self.error_messages@[i]
                &&& after.error_messages@.last()@ == Self::error_line(group_name@, error@)
            },
            MainViewMessage::SortColumn(column) => self.column_chosen(after, column),
            MainViewMessage::ToggleGroupCollapse(group_name) => self.collapse_toggled(
                after,
                group_name@,
            ),
        }
    }

    /// What the caller has to do after `message`: open the miner's page for
    /// a request to do so, write the configuration after a group ended well,
    /// nothing otherwise.
    pub open spec fn action_for(message: MainViewMessage, action: MainViewAction) -> bool {
        match message {
            MainViewMessage::OpenIpInBrowser(ip) => action matches MainViewAction::OpenUrl(url)
                && url@ == miner_url(ip),
            MainViewMessage::GroupCompleted(_) => action is SaveConfig,
            _ => action is Nothing,
        }
    }

    /// Applies a message to the state and says what is to be done outside
    /// of it. `now_ms` is the time on the caller's clock.
    pub fn update(&mut self, message: MainViewMessage, now_ms: u64) -> (action: MainViewAction)
        requires
            old(self).wf(),
        ensures
            final(self).wf(),
            old(self).applied(*final(self), message, now_ms),
            Self::action_for(message, action),
    {
        match message {
            MainViewMessage::OpenNetworkConfig => MainViewAction::Nothing,
            MainViewMessage::StartScan => {
                if !self.is_scanning {
                    let names = self.enabled_group_names();
                    self.start_scanning(names, now_ms);
                }
                MainViewAction::Nothing
            },
            MainViewMessage::StopScan => {
                self.is_scanning = false;
                MainViewAction::Nothing
            },
            MainViewMessage::AddGroup => MainViewAction::Nothing,
            MainViewMessage::OpenIpInBrowser(ip) => MainViewAction::OpenUrl(format_miner_url(ip)),
            MainViewMessage::OpenDeviceDetail(_) => MainViewAction::Nothing,
            MainViewMessage::MinerFound { group_name, miner } => {
                self.miner_found(group_name, miner);
                MainViewAction::Nothing
            },
            MainViewMessage::IpScanned { group_name, total_ips, scanned_count } => {
                self.ip_scanned(group_name, total_ips, scanned_count);
                MainViewAction::Nothing
            },
            MainViewMessage::GroupCompleted(group_name) => {
                self.group_completed(group_name);
                MainViewAction::SaveConfig
            },
            MainViewMessage::GroupError { group_name, error } => {
                self.group_error(group_name, error);
                MainViewAction::Nothing
            },
            MainViewMessage::AllScansCompleted => {
                self.is_scanning = false;
                MainViewAction::Nothing
            },
            MainViewMessage::SortColumn(column) => {
                self.sort_by(column);
                MainViewAction::Nothing
            },
            MainViewMessage::ToggleGroupCollapse(group_name) => {
                self.toggle_group_collapse(group_name);
                MainViewAction::Nothing
            },
        }
    }
}

/// The words shown for the state of a group: the outcome of its scan once
/// that is over, its progress while it runs, and otherwise the miners of the
/// last scan or whether the group is ready to be scanned.
pub open spec fn status_words(
    status: Option<GroupScanStatus>,
    miner_count: nat,
    enabled: bool,
) -> Seq<char> {
    match status {
        Some(known) => if known.completed {
            if known.error.is_some() {
                "error"@
            } else {
                decimal_text(known.miner_count as nat) + " miners"@
            }
        } else if known.total_ips > 0 {
            "scanning "@ + decimal_text(known.scanned_ips as nat) + "/"@ + decimal_text(
                known.total_ips as nat,
            )
        } else {
            "scanning..."@
        },
        None => if miner_count > 0 {
            decimal_text(miner_count) + " miners"@
        } else if enabled {
            "ready"@
        } else {
            "disabled"@
        },
    }
}

/// Writes the words shown for the state of a group. `status` is what the
/// running scan knows of the group, `miner_count` the number of miners
/// listed for it.
pub fn group_status_text(status: Option<&GroupScanStatus>, miner_count: usize, enabled: bool) -> (words:
    String)
    ensures
        words@ == status_words(
            match status {
                Some(known) => Some(*known),
                None => None,
            },
            miner_count as nat,
            enabled,
        ),
{
    match status {
        Some(known) => {
            if known.completed {
                if known.error.is_some() {
                    String::from_str("error")
                } else {
                    let mut words = String::new();
                    push_decimal(&mut words, known.miner_count as u64);
                    words.append(" miners");
                    assert(words@ =~= decimal_text(known.miner_count as nat) + " miners"@);
                    words
                }
            } else if known.total_ips > 0 {
                let mut words = String::from_str("scanning ");
                push_decimal(&mut words, known.scanned_ips as u64);
                words.append("/");
                push_decimal(&mut words, known.total_ips as u64);
                words
            } else {
                String::from_str("scanning...")
            }
        },
        None => {
            if miner_count > 0 {
                let mut words = String::new();
                push_decimal(&mut words, miner_count as u64);
                words.append(" miners");
                assert(words@ =~= decimal_text(miner_count as nat) + " miners"@);
                words
            } else if enabled {
                String::from_str("ready")
            } else {
                String::from_str("disabled")
            }
        },
    }
}

/// The sum of the totals and the sum of the counts of `statuses`.
pub open spec fn summed_progress(statuses: Seq<Named<GroupScanStatus>>) -> (nat, nat)
    decreases statuses.len(),
{
    if statuses.len() == 0 {
        (0, 0)
    } else {
        let front = summed_progress(statuses.drop_last());
        (
            front.0 + statuses.last().value.total_ips as nat,
            front.1 + statuses.last().value.scanned_ips as nat,
        )
    }
}

impl MainView {
    /// The mark shown beside the heading of `column`: an arrow up or down
    /// for the column sorted by, nothing for the others.
    pub open spec fn arrow_for(self, column: SortColumn) -> Seq<char> {
        if self.sort_column == Some(column) {
            match self.sort_direction {
                SortDirection::Ascending => " ▲"@,
                SortDirection::Descending => " ▼"@,
            }
        } else {
            ""@
        }
    }

    /// The mark shown beside the heading of `column`.
    pub fn sort_arrow(&self, column: SortColumn) -> (mark: &'static str)
        ensures
            mark@ == self.arrow_for(column),
    {
        let sorted = match self.sort_column {
            Some(current) => current == column,
            None => false,
        };
        if sorted {
            match self.sort_direction {
                SortDirection::Ascending => " ▲",
                SortDirection::Descending => " ▼",
            }
        } else {
            ""
        }
    }

    /// Hosts to probe and hosts probed, added up over the groups heard of
    /// in the running scan. A sum beyond the largest machine word stays at
    /// that word.
    pub fn scan_totals(&self) -> (totals: (usize, usize))
        ensures
            totals.0 as nat == capped(summed_progress(self.group_status@).0),
            totals.1 as nat == capped(summed_progress(self.group_status@).1),
    {
        let mut total: usize = 0;
        let mut scanned: usize = 0;
        let mut i: usize = 0;
        while i < self.group_status.len()
            invariant
                i <= self.group_status.len(),
                total as nat == capped(summed_progress(self.group_status@.take(i as int)).0),
                scanned as nat == capped(summed_progress(self.group_status@.take(i as int)).1),
            decreases self.group_status.len() - i,
        {
            proof {
                let front = self.group_status@.take(i + 1);
                assert(front.drop_last() =~= self.group_status@.take(i as int));
                assert(front.last() == self.group_status@[i as int]);
            }
            let status = &self.group_status[i].value;
            total = if status.total_ips > usize::MAX - total {
                usize::MAX
            } else {
                total + status.total_ips
            };
            scanned = if status.scanned_ips > usize::MAX - scanned {
                usize::MAX
            } else {
                scanned + status.scanned_ips
            };
            i += 1;
        }
        assert(self.group_status@.take(self.group_status.len() as int) =~= self.group_status@);
        (total, scanned)
    }

    /// Sorts `miners` the way the view is set to show them.
    pub fn sort_miners(&self, miners: &mut Vec<MinerRecord>)
        ensures
            match self.sort_column {
                Some(column) => crate::sorting::stably_sorted(
                    old(miners)@,
                    final(miners)@,
                    column,
                    self.sort_direction,
                ),
                None => final(miners)@ == old(miners)@,
            },
    {
        match self.sort_column {
            Some(column) => crate::sorting::sort_miners_by_column(
                miners,
                column,
                self.sort_direction,
            ),
            None => {},
        }
    }
}

} // verus!
