//! The stored configuration: scan groups and the results of the last scan.

use crate::named::{names_distinct, put_named, value_under, Named};
use crate::network::scanner::{MinerRecord, ScanConfig, ScanConfigView};
use crate::errors::ConfigError;
use crate::text::same_text;
use vstd::prelude::*;
use vstd::string::*;

verus! {

/// Version written into a new configuration.
pub const CONFIG_VERSION: &'static str = "0.1.0";

/// A configured scan group: a named range, its filters, and whether it
/// takes part in scans.
#[derive(Debug, PartialEq, Eq)]
pub struct ScanGroup {
    pub name: String,
    pub network_range: String,
    pub scan_config: ScanConfig,
    pub enabled: bool,
}

/// A scan group, as plain values.
pub struct ScanGroupView {
    pub name: Seq<char>,
    pub network_range: Seq<char>,
    pub scan_config: ScanConfigView,
    pub enabled: bool,
}

impl View for ScanGroup {
    type V = ScanGroupView;

    open spec fn view(&self) -> ScanGroupView {
        ScanGroupView {
            name: self.name@,
            network_range: self.network_range@,
            scan_config: self.scan_config@,
            enabled: self.enabled,
        }
    }
}

impl Clone for ScanGroup {
    fn clone(&self) -> (copy: Self)
        ensures
            copy@ == self@,
    {
        ScanGroup {
            name: self.name.clone(),
            network_range: self.network_range.clone(),
            scan_config: self.scan_config.clone(),
            enabled: self.enabled,
        }
    }
}

impl ScanGroup {
    /// An enabled group without filters.
    pub fn new(name: String, network_range: String) -> (group: Self)
        ensures
            group.name == name,
            group.network_range == network_range,
            group.scan_config.search_makes.is_none(),
            group.scan_config.search_firmwares.is_none(),
            group.enabled,
    {
        ScanGroup {
            name,
            network_range,
            scan_config: ScanConfig { search_makes: None, search_firmwares: None },
            enabled: true,
        }
    }
}

/// The miners one group's last scan found, under the group's name.
pub type StoredResults = Named<Vec<MinerRecord>>;

/// The application's configuration.
#[derive(Debug, PartialEq, Eq)]
pub struct AppConfig {
    pub version: String,
    pub scan_groups: Vec<ScanGroup>,
    /// Results of the last scan, at most one entry per group name.
    pub last_scan_results: Vec<StoredResults>,
}

/// A configuration, as plain values.
pub struct AppConfigView {
    pub version: Seq<char>,
    pub scan_groups: Seq<ScanGroupView>,
    /// Group names with the miners stored under them.
    pub last_scan_results: Seq<(Seq<char>, Seq<MinerRecord>)>,
}

impl View for AppConfig {
    type V = AppConfigView;

    open spec fn view(&self) -> AppConfigView {
        AppConfigView {
            version: self.version@,
            scan_groups: Seq::new(self.scan_groups@.len(), |i: int| self.scan_groups@[i]@),
            last_scan_results: Seq::new(
                self.last_scan_results@.len(),
                |i: int| (self.last_scan_results@[i].name@, self.last_scan_results@[i].value@),
            ),
        }
    }
}

/// A copy of `miners`.
pub fn clone_miners(miners: &Vec<MinerRecord>) -> (copy: Vec<MinerRecord>)
    ensures
        copy@ == miners@,
{
    let mut copy: Vec<MinerRecord> = Vec::new();
    let mut i: usize = 0;
    while i < miners.len()
        invariant
            i <= miners.len(),
            copy@ == miners@.take(i as int),
        decreases miners.len() - i,
    {
        copy.push(miners[i].clone());
        assert(miners@.take(i + 1) =~= miners@.take(i as int).push(miners@[i as int]));
        i += 1;
    }
    assert(miners@.take(miners.len() as int) =~= miners@);
    copy
}

impl Clone for AppConfig {
    fn clone(&self) -> (copy: Self)
        ensures
            copy@ == self@,
            self.wf() ==> copy.wf(),
    {
        let mut scan_groups: Vec<ScanGroup> = Vec::new();
        let mut i: usize = 0;
        while i < self.scan_groups.len()
            invariant
                i <= self.scan_groups.len(),
                scan_groups@.len() == i,
                forall|j: int| 0 <= j < i ==> (#[trigger] scan_groups@[j])@ == self.scan_groups@[j]@,
            decreases self.scan_groups.len() - i,
        {
            scan_groups.push(self.scan_groups[i].clone());
            i += 1;
        }
        let mut last_scan_results: Vec<StoredResults> = Vec::new();
        let mut k: usize = 0;
        while k < self.last_scan_results.len()
            invariant
                k <= self.last_scan_results.len(),
                last_scan_results@.len() == k,
                forall|j: int|
                    0 <= j < k ==> (#[trigger] last_scan_results@[j]).name@
                        == self.last_scan_results@[j].name@ && last_scan_results@[j].value@
                        == self.last_scan_results@[j].value@,
            decreases self.last_scan_results.len() - k,
        {
            last_scan_results.push(
                Named {
                    name: self.last_scan_results[k].name.clone(),
                    value: clone_miners(&self.last_scan_results[k].value),
                },
            );
            k += 1;
        }
        let copy = AppConfig { version: self.version.clone(), scan_groups, last_scan_results };
        proof {
            assert(copy@.scan_groups =~= self@.scan_groups);
            assert(copy@.last_scan_results =~= self@.last_scan_results);
            if self.wf() {
                assert forall|a: int, b: int|
                    0 <= a < b < copy.last_scan_results@.len() implies (
                #[trigger] copy.last_scan_results@[a]).name@ != (
                #[trigger] copy.last_scan_results@[b]).name@ by {
                    assert(self.last_scan_results@[a].name@ != self.last_scan_results@[b].name@);
                }
            }
        }
        copy
    }
}

/// The groups of `groups` whose name is not `name`, in their order.
pub open spec fn without_name(groups: Seq<ScanGroup>, name: Seq<char>) -> Seq<ScanGroup>
    decreases groups.len(),
{
    if groups.len() == 0 {
        Seq::empty()
    } else if groups.last().name@ == name {
        without_name(groups.drop_last(), name)
    } else {
        without_name(groups.drop_last(), name).push(groups.last())
    }
}

/// The enabled groups of `groups`, in their order.
pub open spec fn enabled_groups(groups: Seq<ScanGroup>) -> Seq<ScanGroup>
    decreases groups.len(),
{
    if groups.len() == 0 {
        Seq::empty()
    } else if groups.last().enabled {
        enabled_groups(groups.drop_last()).push(groups.last())
    } else {
        enabled_groups(groups.drop_last())
    }
}

/// Whether `index` is the place of the first group named `name`.
pub open spec fn is_first_named(groups: Seq<ScanGroup>, name: Seq<char>, index: int) -> bool {
    &&& 0 <= index < groups.len()
    &&& groups[index].name@ == name
    &&& forall|j: int| 0 <= j < index ==> (#[trigger] groups[j]).name@ != name
}

/// Whether no group is named `name`.
pub open spec fn none_named(groups: Seq<ScanGroup>, name: Seq<char>) -> bool {
    forall|j: int| 0 <= j < groups.len() ==> (#[trigger] groups[j]).name@ != name
}

impl Default for AppConfig {
    /// A configuration with one group, `Default`, over `192.168.1.0/24`.
    fn default() -> (config: Self)
        ensures
            config.wf(),
            config.version@ == CONFIG_VERSION@,
            config.scan_groups@.len() == 1,
            config.scan_groups@[0].name@ == "Default"@,
            config.scan_groups@[0].network_range@ == "192.168.1.0/24"@,
            config.scan_groups@[0].enabled,
            config.last_scan_results@.len() == 0,
    {
        let mut scan_groups: Vec<ScanGroup> = Vec::new();
        scan_groups.push(
            ScanGroup::new(String::from_str("Default"), String::from_str("192.168.1.0/24")),
        );
        AppConfig {
            version: String::from_str(CONFIG_VERSION),
            scan_groups,
            last_scan_results: Vec::new(),
        }
    }
}

impl AppConfig {
    /// No two stored results go under one name.
    pub open spec fn wf(self) -> bool {
        names_distinct(self.last_scan_results@)
    }

    /// The miners stored under `name`, if any are.
    pub open spec fn stored_under(self, name: Seq<char>) -> Option<Vec<MinerRecord>> {
        value_under(self.last_scan_results@, name)
    }

    /// Adds a group at the end.
    pub fn add_scan_group(&mut self, group: ScanGroup)
        ensures
            final(self).scan_groups@ == old(self).scan_groups@.push(group),
            final(self).version == old(self).version,
            final(self).last_scan_results == old(self).last_scan_results,
    {
        self.scan_groups.push(group);
    }

    /// The place of the first group named `name`.
    pub fn find_group(&self, name: &str) -> (place: Option<usize>)
        ensures
            match place {
                Some(index) => is_first_named(self.scan_groups@, name@, index as int),
                None => none_named(self.scan_groups@, name@),
            },
    {
        let mut i: usize = 0;
        while i < self.scan_groups.len()
            invariant
                i <= self.scan_groups.len(),
                forall|j: int| 0 <= j < i ==> (#[trigger] self.scan_groups@[j]).name@ != name@,
            decreases self.scan_groups.len() - i,
        {
            if same_text(self.scan_groups[i].name.as_str(), name) {
                return Some(i);
            }
            i += 1;
        }
        None
    }

    /// Removes every group named `name`, and says whether there was one.
    pub fn remove_scan_group(&mut self, name: &str) -> (removed: bool)
        ensures
            final(self).scan_groups@ == without_name(old(self).scan_groups@, name@),
            removed == (final(self).scan_groups@.len() < old(self).scan_groups@.len()),
            removed == !none_named(old(self).scan_groups@, name@),
            final(self).version == old(self).version,
            final(self).last_scan_results == old(self).last_scan_results,
    {
        let ghost before = self.scan_groups@;
        let initial_len: usize = self.scan_groups.len();
        let mut i: usize = 0;
        let ghost mut k: int = 0;
        while i < self.scan_groups.len()
            invariant
                0 <= k <= before.len(),
                i <= self.scan_groups@.len(),
                self.scan_groups@.len() - i == before.len() - k,
                self.scan_groups@.take(i as int) == without_name(before.take(k), name@),
                self.scan_groups@.skip(i as int) == before.skip(k),
                self.version == old(self).version,
                self.last_scan_results == old(self).last_scan_results,
                (i as int == k) == none_named(before.take(k), name@),
                i <= k,
            decreases before.len() - k,
        {
            let ghost now = self.scan_groups@;
            assert(now[i as int] == now.skip(i as int)[0]);
            assert(before[k] == before.skip(k)[0]);
            proof {
                let front = before.take(k + 1);
                assert(front.drop_last() =~= before.take(k));
                assert(front.last() == before[k]);
                if none_named(front, name@) {
                    assert forall|j: int| 0 <= j < k implies (#[trigger] before.take(k)[j]).name@
                        != name@ by {
                        assert(front[j] == before.take(k)[j]);
                    }
                    assert(front[k].name@ != name@);
                }
                if none_named(before.take(k), name@) && before[k].name@ != name@ {
                    assert forall|j: int| 0 <= j < front.len() implies (#[trigger] front[j]).name@
                        != name@ by {
                        if j < k {
                            assert(front[j] == before.take(k)[j]);
                        }
                    }
                }
            }
            if same_text(self.scan_groups[i].name.as_str(), name) {
                self.scan_groups.remove(i);
                assert(self.scan_groups@.take(i as int) =~= now.take(i as int));
                assert(self.scan_groups@.skip(i as int) =~= now.skip(i as int).skip(1));
                assert(before.skip(k + 1) =~= before.skip(k).skip(1));
            } else {
                assert(now.take(i + 1) =~= now.take(i as int).push(now[i as int]));
                assert(now.skip(i + 1) =~= now.skip(i as int).skip(1));
                assert(before.skip(k + 1) =~= before.skip(k).skip(1));
                i += 1;
            }
            proof {
                k = k + 1;
            }
        }
        proof {
            assert(before.take(k) =~= before);
            assert(self.scan_groups@.take(i as int) =~= self.scan_groups@);
        }
        self.scan_groups.len() < initial_len
    }
}

impl AppConfig {
    /// Puts `updated_group` in the place of the first group named `name`,
    /// and says whether there was one.
    pub fn update_scan_group(&mut self, name: &str, updated_group: ScanGroup) -> (updated: bool)
        ensures
            updated == !none_named(old(self).scan_groups@, name@),
            updated ==> exists|index: int|
                is_first_named(old(self).scan_groups@, name@, index) && final(self).scan_groups@
                    == old(self).scan_groups@.update(index, updated_group),
            !updated ==> final(self).scan_groups@ == old(self).scan_groups@,
            final(self).version == old(self).version,
            final(self).last_scan_results == old(self).last_scan_results,
    {
        match self.find_group(name) {
            Some(index) => {
                self.scan_groups[index] = updated_group;
                assert(is_first_named(old(self).scan_groups@, name@, index as int));
                assert(old(self).scan_groups@[index as int].name@ == name@);
                true
            },
            None => false,
        }
    }

    /// The enabled groups, in their order.
    pub fn get_enabled_groups(&self) -> (enabled: Vec<&ScanGroup>)
        ensures
            enabled@.len() == enabled_groups(self.scan_groups@).len(),
            forall|i: int|
                0 <= i < enabled@.len() ==> *(#[trigger] enabled@[i]) == enabled_groups(
                    self.scan_groups@,
                )[i],
    {
        let mut enabled: Vec<&ScanGroup> = Vec::new();
        let mut i: usize = 0;
        while i < self.scan_groups.len()
            invariant
                i <= self.scan_groups.len(),
                enabled@.len() == enabled_groups(self.scan_groups@.take(i as int)).len(),
                forall|j: int|
                    0 <= j < enabled@.len() ==> *(#[trigger] enabled@[j]) == enabled_groups(
                        self.scan_groups@.take(i as int),
                    )[j],
            decreases self.scan_groups.len() - i,
        {
            proof {
                let front = self.scan_groups@.take(i + 1);
                assert(front.drop_last() =~= self.scan_groups@.take(i as int));
                assert(front.last() == self.scan_groups@[i as int]);
            }
            if self.scan_groups[i].enabled {
                enabled.push(&self.scan_groups[i]);
            }
            i += 1;
        }
        assert(self.scan_groups@.take(self.scan_groups.len() as int) =~= self.scan_groups@);
        enabled
    }

    /// The first group named `name`.
    pub fn get_group(&self, name: &str) -> (found: Option<&ScanGroup>)
        ensures
            match found {
                Some(group) => exists|index: int|
                    is_first_named(self.scan_groups@, name@, index) && *group
                        == self.scan_groups@[index],
                None => none_named(self.scan_groups@, name@),
            },
    {
        match self.find_group(name) {
            Some(index) => Some(&self.scan_groups[index]),
            None => None,
        }
    }

    /// The first group named `name`, for changing it in place.
    pub fn get_group_mut(&mut self, name: &str) -> (found: Option<&mut ScanGroup>)
        ensures
            match found {
                Some(group) => exists|index: int|
                    is_first_named(old(self).scan_groups@, name@, index) && *group == old(
                        self,
                    ).scan_groups@[index] && final(self).scan_groups@ == old(
                        self,
                    ).scan_groups@.update(index, *final(group)),
                None => none_named(old(self).scan_groups@, name@) && final(self).scan_groups@
                    == old(self).scan_groups@,
            },
            final(self).version == old(self).version,
            final(self).last_scan_results == old(self).last_scan_results,
    {
        match self.find_group(name) {
            Some(index) => Some(&mut self.scan_groups[index]),
            None => None,
        }
    }

    /// Enables or disables the first group named `name`, and says whether
    /// there was one.
    pub fn set_group_enabled(&mut self, name: &str, enabled: bool) -> (changed: bool)
        ensures
            changed == !none_named(old(self).scan_groups@, name@),
            changed ==> exists|index: int|
                is_first_named(old(self).scan_groups@, name@, index) && final(self).scan_groups@
                    == old(self).scan_groups@.update(
                    index,
                    ScanGroup { enabled, ..old(self).scan_groups@[index] },
                ),
            !changed ==> final(self).scan_groups@ == old(self).scan_groups@,
            final(self).version == old(self).version,
            final(self).last_scan_results == old(self).last_scan_results,
    {
        match self.find_group(name) {
            Some(index) => {
                self.scan_groups[index].enabled = enabled;
                assert(is_first_named(old(self).scan_groups@, name@, index as int));
                assert(old(self).scan_groups@[index as int].name@ == name@);
                true
            },
            None => false,
        }
    }

    /// Stores `miners` as the results of the group named `group_name`, in
    /// place of what was stored under that name before.
    pub fn store_scan_results(&mut self, group_name: &str, miners: Vec<MinerRecord>)
        requires
            old(self).wf(),
        ensures
            final(self).wf(),
            final(self).stored_under(group_name@) == Some(miners),
            forall|other: Seq<char>|
                other != group_name@ ==> #[trigger] final(self).stored_under(other) == old(
                    self,
                ).stored_under(other),
            final(self).version == old(self).version,
            final(self).scan_groups == old(self).scan_groups,
    {
        put_named(&mut self.last_scan_results, group_name, miners);
    }

    /// Everything stored of the last scan.
    pub fn get_all_scan_results(&self) -> (results: &Vec<StoredResults>)
        ensures
            results == &self.last_scan_results,
    {
        &self.last_scan_results
    }

    /// Forgets the results of the last scan.
    pub fn clear_scan_results(&mut self)
        ensures
            final(self).wf(),
            final(self).last_scan_results@.len() == 0,
            final(self).version == old(self).version,
            final(self).scan_groups == old(self).scan_groups,
    {
        self.last_scan_results.clear();
    }
}

/// The error for a configuration file that could not be read: that it is
/// not there, or what else went wrong with it.
pub open spec fn read_failure_text(not_found: bool, path: Seq<char>, detail: Seq<char>) -> Seq<
    char,
> {
    if not_found {
        "Config file not found: "@ + path
    } else {
        "IO error: "@ + path + ": "@ + detail
    }
}

/// Names the failure to read the configuration file at `path`. `detail` is
/// what the system said; it is not looked at for a file that is not there.
pub fn read_failure(not_found: bool, path: &str, detail: &str) -> (error: ConfigError)
    ensures
        error.message_text() == read_failure_text(not_found, path@, detail@),
        not_found ==> (error matches ConfigError::FileNotFound(named) && named@ == path@),
        !not_found ==> (error matches ConfigError::Io(text) && text@ == path@ + ": "@ + detail@),
{
    if not_found {
        ConfigError::FileNotFound(String::from_str(path))
    } else {
        let mut text = String::from_str(path);
        text.append(": ");
        text.append(detail);
        assert(("IO error: "@ + (path@ + ": "@ + detail@)) =~= ("IO error: "@ + path@ + ": "@
            + detail@));
        ConfigError::Io(text)
    }
}

/// Names the failure to write the configuration file at `path`.
pub fn write_failure(path: &str, detail: &str) -> (error: ConfigError)
    ensures
        error matches ConfigError::Io(text) && text@ == path@ + ": "@ + detail@,
{
    let mut text = String::from_str(path);
    text.append(": ");
    text.append(detail);
    ConfigError::Io(text)
}

} // verus!
