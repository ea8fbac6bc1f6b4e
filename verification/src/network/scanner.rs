//! Scan events, scan groups and the bookkeeping of a multi-group scan.

use crate::errors::ScannerError;
use crate::network::{
    create_configured_miner_factory, estimate_ip_count, estimated_hosts, plan_matches,
    resolve_range, ScanPlan,
};
use crate::network::trace::{
    completed_count, done_count, lemma_completed_count_fresh, lemma_completed_count_full,
    lemma_completed_count_update, lemma_done_count_push, lemma_push_all_done, lemma_trace_fresh,
    done_in, lemma_worker_emits, lemma_worker_update, lemma_worker_wf, trace_wf, TraceEntry,
};
use crate::sizing::{buffer_size_for, calculate_buffer_size};
use crate::throttle::{throttle_allows, ProgressThrottle, PROGRESS_THROTTLE_MS};
use vstd::prelude::*;

verus! {

/// Manufacturers a scan can be narrowed to.
#[derive(Debug, Clone, Copy, PartialEq, Eq, Hash, Structural)]
pub enum MinerMake {
    AntMiner,
    WhatsMiner,
    AvalonMiner,
    BitAxe,
    EPic,
    Braiins,
}

/// Firmware families a scan can be narrowed to.
#[derive(Debug, Clone, Copy, PartialEq, Eq, Hash, Structural)]
pub enum MinerFirmware {
    BraiinsOS,
    EPic,
    LuxOS,
    VNish,
    Marathon,
}

/// Allow-lists handed to the discovery of one group. An absent list matches
/// every device.
#[derive(Debug, PartialEq, Eq, Hash)]
pub struct ScanConfig {
    pub search_makes: Option<Vec<MinerMake>>,
    pub search_firmwares: Option<Vec<MinerFirmware>>,
}

/// The lists of a filter, as plain sequences.
pub struct ScanConfigView {
    pub search_makes: Option<Seq<MinerMake>>,
    pub search_firmwares: Option<Seq<MinerFirmware>>,
}

impl View for ScanConfig {
    type V = ScanConfigView;

    open spec fn view(&self) -> ScanConfigView {
        ScanConfigView {
            search_makes: match self.search_makes {
                Some(makes) => Some(makes@),
                None => None,
            },
            search_firmwares: match self.search_firmwares {
                Some(firmwares) => Some(firmwares@),
                None => None,
            },
        }
    }
}

/// A copy of `makes`.
pub fn copy_makes(makes: &Vec<MinerMake>) -> (copy: Vec<MinerMake>)
    ensures
        copy@ == makes@,
{
    let mut copy: Vec<MinerMake> = Vec::new();
    let mut i: usize = 0;
    while i < makes.len()
        invariant
            i <= makes.len(),
            copy@ == makes@.take(i as int),
        decreases makes.len() - i,
    {
        copy.push(makes[i]);
        assert(makes@.take(i + 1) =~= makes@.take(i as int).push(makes@[i as int]));
        i += 1;
    }
    assert(makes@.take(makes.len() as int) =~= makes@);
    copy
}

/// A copy of `firmwares`.
pub fn copy_firmwares(firmwares: &Vec<MinerFirmware>) -> (copy: Vec<MinerFirmware>)
    ensures
        copy@ == firmwares@,
{
    let mut copy: Vec<MinerFirmware> = Vec::new();
    let mut i: usize = 0;
    while i < firmwares.len()
        invariant
            i <= firmwares.len(),
            copy@ == firmwares@.take(i as int),
        decreases firmwares.len() - i,
    {
        copy.push(firmwares[i]);
        assert(firmwares@.take(i + 1) =~= firmwares@.take(i as int).push(firmwares@[i as int]));
        i += 1;
    }
    assert(firmwares@.take(firmwares.len() as int) =~= firmwares@);
    copy
}

impl Clone for ScanConfig {
    fn clone(&self) -> (copy: Self)
        ensures
            copy@ == self@,
    {
        let search_makes = match &self.search_makes {
            Some(makes) => Some(copy_makes(makes)),
            None => None,
        };
        let search_firmwares = match &self.search_firmwares {
            Some(firmwares) => Some(copy_firmwares(firmwares)),
            None => None,
        };
        ScanConfig { search_makes, search_firmwares }
    }
}

impl Default for ScanConfig {
    fn default() -> (config: Self)
        ensures
            config.search_makes.is_none(),
            config.search_firmwares.is_none(),
    {
        ScanConfig { search_makes: None, search_firmwares: None }
    }
}

/// A named network range with its filters: the unit of work of a scan.
#[derive(Debug, PartialEq, Eq, Hash)]
pub struct ScanGroup {
    pub name: String,
    pub network_range: String,
    pub config: ScanConfig,
}

impl Clone for ScanGroup {
    fn clone(&self) -> (copy: Self)
        ensures
            copy.name@ == self.name@,
            copy.network_range@ == self.network_range@,
            copy.config@ == self.config@,
    {
        ScanGroup {
            name: self.name.clone(),
            network_range: self.network_range.clone(),
            config: self.config.clone(),
        }
    }
}

impl ScanGroup {
    pub fn new(name: String, network_range: String, config: ScanConfig) -> (group: Self)
        ensures
            group.name == name,
            group.network_range == network_range,
            group.config == config,
    {
        ScanGroup { name, network_range, config }
    }
}

/// Network address of a probed host.
#[derive(Debug, Clone, Copy, PartialEq, Eq, Hash, Structural)]
pub enum HostAddress {
    V4(u32),
    V6(u128),
}

/// What discovery learned of one device.
#[derive(Debug, PartialEq, Eq, Hash)]
pub struct MinerRecord {
    pub ip: HostAddress,
    pub make: String,
    pub model: String,
    pub firmware: String,
    pub firmware_version: Option<String>,
}

impl Clone for MinerRecord {
    fn clone(&self) -> (copy: Self)
        ensures
            copy == *self,
    {
        let firmware_version = match &self.firmware_version {
            Some(version) => Some(version.clone()),
            None => None,
        };
        MinerRecord {
            ip: self.ip,
            make: self.make.clone(),
            model: self.model.clone(),
            firmware: self.firmware.clone(),
            firmware_version,
        }
    }
}

/// One message of the merged event stream of a scan.
#[derive(Debug, PartialEq, Eq)]
pub enum ScannerMessage {
    /// A device answered in the named group.
    MinerDiscovered { group_name: String, miner: MinerRecord },
    /// `scanned_count` of the group's `total_ips` hosts have been probed.
    IpScanned { group_name: String, total_ips: usize, scanned_count: usize },
    /// The named group is done; nothing more follows for it.
    GroupScanCompleted { group_name: String, result: Result<(), String> },
    /// Every group is done.
    AllScansCompleted,
}

impl Clone for ScannerMessage {
    fn clone(&self) -> (copy: Self)
        ensures
            copy == *self,
    {
        match self {
            ScannerMessage::MinerDiscovered { group_name, miner } => {
                ScannerMessage::MinerDiscovered {
                    group_name: group_name.clone(),
                    miner: miner.clone(),
                }
            },
            ScannerMessage::IpScanned { group_name, total_ips, scanned_count } => {
                ScannerMessage::IpScanned {
                    group_name: group_name.clone(),
                    total_ips: *total_ips,
                    scanned_count: *scanned_count,
                }
            },
            ScannerMessage::GroupScanCompleted { group_name, result } => {
                let outcome: Result<(), String> = match result {
                    Ok(done) => Ok(*done),
                    Err(reason) => Err(reason.clone()),
                };
                ScannerMessage::GroupScanCompleted {
                    group_name: group_name.clone(),
                    result: outcome,
                }
            },
            ScannerMessage::AllScansCompleted => ScannerMessage::AllScansCompleted,
        }
    }
}

/// Where the scan of one group stands.
#[derive(Debug, Clone, Copy, PartialEq, Eq, Hash, Structural)]
pub enum GroupPhase {
    /// Its range has not been validated yet.
    Pending,
    /// Its hosts are being probed.
    Scanning,
    /// Its terminal event has been emitted.
    Completed,
}

/// Progress of the scan of one group.
#[derive(Debug, Clone, Copy, PartialEq, Eq)]
pub struct GroupWorker {
    pub phase: GroupPhase,
    /// Whether the group's range was found valid.
    pub validated: bool,
    /// Hosts in the group's range.
    pub total_ips: usize,
    /// Hosts whose probe has finished, hit or miss.
    pub scanned_count: usize,
    /// The count carried by the last progress report that went out.
    pub reported_count: usize,
    pub throttle: ProgressThrottle,
}

/// The count after one more host: it never passes the total.
pub open spec fn count_after_host(scanned: usize, total: usize) -> usize {
    if scanned < total {
        (scanned + 1) as usize
    } else {
        scanned
    }
}

impl GroupWorker {
    /// The counts are in order: reported, then scanned, then total.
    pub open spec fn wf(self) -> bool {
        &&& self.reported_count <= self.scanned_count <= self.total_ips
        &&& self.phase == GroupPhase::Pending ==> !self.validated
        &&& self.phase == GroupPhase::Scanning ==> self.validated
        &&& !self.validated ==> self.scanned_count == 0 && self.throttle.last_emit.is_none()
    }

    /// A worker whose range has not been validated yet.
    pub fn new() -> (worker: Self)
        ensures
            worker.wf(),
            worker.phase == GroupPhase::Pending,
            !worker.validated,
            worker.total_ips == 0,
            worker.scanned_count == 0,
            worker.reported_count == 0,
            worker.throttle == (ProgressThrottle {
                interval_ms: PROGRESS_THROTTLE_MS,
                last_emit: None,
            }),
    {
        GroupWorker {
            phase: GroupPhase::Pending,
            validated: false,
            total_ips: 0,
            scanned_count: 0,
            reported_count: 0,
            throttle: ProgressThrottle::new(PROGRESS_THROTTLE_MS),
        }
    }

    /// Starts probing a range of `total_ips` hosts. A worker that has
    /// started before stays as it is.
    pub fn begin(&mut self, total_ips: usize)
        requires
            old(self).wf(),
        ensures
            final(self).wf(),
            *final(self) == if old(self).phase == GroupPhase::Pending {
                GroupWorker {
                    phase: GroupPhase::Scanning,
                    validated: true,
                    total_ips,
                    ..*old(self)
                }
            } else {
                *old(self)
            },
    {
        if self.phase == GroupPhase::Pending {
            self.phase = GroupPhase::Scanning;
            self.validated = true;
            self.total_ips = total_ips;
        }
    }

    /// The worker after one more finished probe at time `now_ms`.
    pub open spec fn after_host(self, now_ms: u64) -> GroupWorker {
        let scanned = count_after_host(self.scanned_count, self.total_ips);
        if throttle_allows(self.throttle.last_emit, self.throttle.interval_ms, now_ms) {
            GroupWorker {
                scanned_count: scanned,
                reported_count: scanned,
                throttle: ProgressThrottle {
                    interval_ms: self.throttle.interval_ms,
                    last_emit: Some(now_ms),
                },
                ..self
            }
        } else {
            GroupWorker { scanned_count: scanned, ..self }
        }
    }

    /// The count reported for a probe that finished at time `now_ms`, where
    /// the throttle lets a report through.
    pub open spec fn host_report(self, now_ms: u64) -> Option<usize> {
        if throttle_allows(self.throttle.last_emit, self.throttle.interval_ms, now_ms) {
            Some(count_after_host(self.scanned_count, self.total_ips))
        } else {
            None
        }
    }

    /// Counts one finished probe at time `now_ms` and says whether the new
    /// count is reported: `Some` of it where the throttle lets it through. A
    /// worker that is not scanning counts nothing and reports nothing.
    pub fn record_host(&mut self, now_ms: u64) -> (report: Option<usize>)
        requires
            old(self).wf(),
        ensures
            final(self).wf(),
            *final(self) == if old(self).phase == GroupPhase::Scanning {
                old(self).after_host(now_ms)
            } else {
                *old(self)
            },
            report == if old(self).phase == GroupPhase::Scanning {
                old(self).host_report(now_ms)
            } else {
                None
            },
    {
        if self.phase != GroupPhase::Scanning {
            return None;
        }
        if self.scanned_count < self.total_ips {
            self.scanned_count = self.scanned_count + 1;
        }
        if self.throttle.should_emit(now_ms) {
            self.reported_count = self.scanned_count;
            Some(self.scanned_count)
        } else {
            None
        }
    }

    /// The report owed when the scan ends: the final count, where the
    /// throttle held it back.
    pub fn flush(&mut self) -> (report: Option<usize>)
        requires
            old(self).wf(),
        ensures
            final(self).wf(),
            *final(self) == (GroupWorker {
                reported_count: old(self).scanned_count,
                ..*old(self)
            }),
            report == if old(self).reported_count < old(self).scanned_count {
                Some(old(self).scanned_count)
            } else {
                None
            },
    {
        if self.reported_count < self.scanned_count {
            self.reported_count = self.scanned_count;
            Some(self.scanned_count)
        } else {
            None
        }
    }
}

impl ScannerMessage {
    /// Whether this message is the event `entry`, told of the groups
    /// `groups`: the same kind, the name of the entry's group, and the same
    /// content.
    pub open spec fn depicts(self, entry: TraceEntry, groups: Seq<ScanGroup>) -> bool {
        match entry {
            TraceEntry::Discovered { group, miner } => {
                &&& 0 <= group < groups.len()
                &&& self matches ScannerMessage::MinerDiscovered { group_name, miner: found }
                &&& group_name@ == groups[group].name@
                &&& found == miner
            },
            TraceEntry::Progress { group, total, scanned, at } => {
                &&& 0 <= group < groups.len()
                &&& self matches ScannerMessage::IpScanned { group_name, total_ips, scanned_count }
                &&& group_name@ == groups[group].name@
                &&& total_ips == total
                &&& scanned_count == scanned
            },
            TraceEntry::GroupDone { group, error } => {
                &&& 0 <= group < groups.len()
                &&& self matches ScannerMessage::GroupScanCompleted { group_name, result }
                &&& group_name@ == groups[group].name@
                &&& match result {
                    Ok(_) => error.is_none(),
                    Err(reason) => error == Some(reason@),
                }
            },
            TraceEntry::AllDone => self is AllScansCompleted,
        }
    }
}

/// Whether the messages `events` are the events `entries`, one for one and
/// in order.
pub open spec fn depicts_all(
    events: Seq<ScannerMessage>,
    entries: Seq<TraceEntry>,
    groups: Seq<ScanGroup>,
) -> bool {
    &&& events.len() == entries.len()
    &&& forall|k: int| 0 <= k < events.len() ==> (#[trigger] events[k]).depicts(entries[k], groups)
}

/// A worker as a scan starts it.
pub open spec fn fresh_worker() -> GroupWorker {
    GroupWorker {
        phase: GroupPhase::Pending,
        validated: false,
        total_ips: 0,
        scanned_count: 0,
        reported_count: 0,
        throttle: ProgressThrottle { interval_ms: PROGRESS_THROTTLE_MS, last_emit: None },
    }
}

/// The bookkeeping of one scan over several groups.
///
/// The caller does the probing and tells the scanner what happened; the
/// scanner answers with the messages to send, in order. Groups are addressed
/// by their position in the list the scan was started with.
pub struct Scanner {
    pub groups: Vec<ScanGroup>,
    pub workers: Vec<GroupWorker>,
    /// Groups whose terminal event has been emitted.
    pub completed_groups: usize,
    /// Whether the terminal event of the scan has been emitted.
    pub finished: bool,
    /// Capacity the event channel of this scan should have.
    pub buffer_size: usize,
    /// Everything emitted so far.
    pub trace: Ghost<Seq<TraceEntry>>,
}

impl Scanner {
    /// What holds of a scanner at every moment: one worker per group, a
    /// record in order, counters that agree with it, and the terminal event
    /// of the scan on record, once and last, exactly when every group is
    /// done.
    pub open spec fn wf(self) -> bool {
        &&& self.workers@.len() == self.groups@.len()
        &&& trace_wf(self.trace@, self.workers@)
        &&& forall|g: int|
            0 <= g < self.workers@.len() ==> (#[trigger] self.workers@[g]).throttle.interval_ms
                == PROGRESS_THROTTLE_MS
        &&& self.completed_groups as nat == completed_count(self.workers@)
        &&& self.completed_groups as nat == done_count(self.trace@)
        &&& self.finished <==> self.completed_groups == self.groups@.len()
        &&& self.finished ==> self.trace@.len() > 0 && self.trace@.last() is AllDone
        &&& forall|p: int|
            0 <= p < self.trace@.len() && (#[trigger] self.trace@[p]) is AllDone ==> self.finished
                && p == self.trace@.len() - 1
    }

    /// Whether an event for the group at `index` is still taken.
    pub open spec fn accepts(self, index: usize) -> bool {
        !self.finished && index < self.groups@.len()
    }

    /// What a scan of `groups` emits before anything has happened: its
    /// terminal event at once where there is nothing to scan.
    pub open spec fn opening_entries(groups: Seq<ScanGroup>) -> Seq<TraceEntry> {
        if groups.len() == 0 {
            seq![TraceEntry::AllDone]
        } else {
            Seq::empty()
        }
    }

    /// Starts the bookkeeping of a scan of `groups` that expects to probe
    /// `estimated_total` hosts, and gives the messages to send first.
    pub fn start(groups: Vec<ScanGroup>, estimated_total: usize) -> (started: (
        Scanner,
        Vec<ScannerMessage>,
    ))
        ensures
            started.0.wf(),
            started.0.groups@ == groups@,
            forall|g: int|
                0 <= g < groups@.len() ==> (#[trigger] started.0.workers@[g]) == fresh_worker(),
            started.0.completed_groups == 0,
            started.0.finished == (groups@.len() == 0),
            started.0.buffer_size as nat == buffer_size_for(estimated_total as nat),
            started.0.trace@ == Self::opening_entries(groups@),
            depicts_all(started.1@, Self::opening_entries(groups@), groups@),
    {
        let count: usize = groups.len();
        let mut workers: Vec<GroupWorker> = Vec::new();
        let mut i: usize = 0;
        while i < count
            invariant
                i <= count,
                workers@.len() == i,
                forall|g: int| 0 <= g < i ==> (#[trigger] workers@[g]) == fresh_worker(),
            decreases count - i,
        {
            workers.push(GroupWorker::new());
            i += 1;
        }
        let mut events: Vec<ScannerMessage> = Vec::new();
        let finished = count == 0;
        let ghost mut trace = Seq::<TraceEntry>::empty();
        proof {
            assert forall|g: int| 0 <= g < workers@.len() implies (#[trigger] workers@[g]).wf()
                && workers@[g].phase != GroupPhase::Completed by {
                assert(workers@[g] == fresh_worker());
            }
            lemma_trace_fresh(workers@);
            lemma_completed_count_fresh(workers@);
        }
        if finished {
            events.push(ScannerMessage::AllScansCompleted);
            proof {
                lemma_push_all_done(trace, workers@);
                lemma_done_count_push(trace, TraceEntry::AllDone);
                trace = trace.push(TraceEntry::AllDone);
                assert(trace =~= seq![TraceEntry::AllDone]);
            }
        }
        let buffer_size = calculate_buffer_size(estimated_total);
        let scanner = Scanner {
            groups,
            workers,
            completed_groups: 0,
            finished,
            buffer_size,
            trace: Ghost(trace),
        };
        (scanner, events)
    }
}

impl Scanner {
    /// What is emitted when a probe of group `index` finishes at `now_ms`:
    /// the progress report, where the throttle lets it through, then the
    /// device, where one answered. Nothing for a group that is not being
    /// scanned.
    pub open spec fn probe_entries(
        self,
        index: usize,
        miner: Option<MinerRecord>,
        now_ms: u64,
    ) -> Seq<TraceEntry> {
        if self.accepts(index) && self.workers@[index as int].phase == GroupPhase::Scanning {
            let worker = self.workers@[index as int];
            let progress = match worker.host_report(now_ms) {
                Some(count) => seq![
                    TraceEntry::Progress {
                        group: index as int,
                        total: worker.total_ips as nat,
                        scanned: count as nat,
                        at: Some(now_ms),
                    },
                ],
                None => Seq::empty(),
            };
            let discovery = match miner {
                Some(found) => seq![TraceEntry::Discovered { group: index as int, miner: found }],
                None => Seq::empty(),
            };
            progress + discovery
        } else {
            Seq::empty()
        }
    }

    /// The workers after a probe of group `index` finished at `now_ms`.
    pub open spec fn workers_after_probe(self, index: usize, now_ms: u64) -> Seq<GroupWorker> {
        if self.accepts(index) && self.workers@[index as int].phase == GroupPhase::Scanning {
            self.workers@.update(index as int, self.workers@[index as int].after_host(now_ms))
        } else {
            self.workers@
        }
    }

    /// Takes note that the probe of one host of group `index` finished at
    /// time `now_ms`, with the device that answered if one did, and gives the
    /// messages to send.
    ///
    /// The host is counted and its group's progress reported if the throttle
    /// allows; a device is always reported. A probe of a group that is not
    /// being scanned changes nothing and sends nothing.
    pub fn host_probed(&mut self, index: usize, miner: Option<MinerRecord>, now_ms: u64) -> (events:
        Vec<ScannerMessage>)
        requires
            old(self).wf(),
        ensures
            final(self).wf(),
            final(self).groups == old(self).groups,
            final(self).completed_groups == old(self).completed_groups,
            final(self).finished == old(self).finished,
            final(self).buffer_size == old(self).buffer_size,
            final(self).workers@ == old(self).workers_after_probe(index, now_ms),
            final(self).trace@ == old(self).trace@ + old(self).probe_entries(index, miner, now_ms),
            depicts_all(events@, old(self).probe_entries(index, miner, now_ms), old(self).groups@),
    {
        let mut events: Vec<ScannerMessage> = Vec::new();
        let ghost trace0 = self.trace@;
        let ghost workers0 = self.workers@;
        let ghost g = index as int;
        if self.finished || index >= self.groups.len() {
            assert(trace0 + Seq::<TraceEntry>::empty() =~= trace0);
            return events;
        }
        let mut worker = self.workers[index];
        if worker.phase != GroupPhase::Scanning {
            assert(trace0 + Seq::<TraceEntry>::empty() =~= trace0);
            return events;
        }
        proof {
            lemma_worker_wf(trace0, workers0, g);
        }
        let report = worker.record_host(now_ms);
        self.workers[index] = worker;
        let ghost workers1 = workers0.update(g, worker);
        assert(self.workers@ =~= workers1);
        proof {
            lemma_completed_count_update(workers0, g, worker);
        }
        let ghost mut emitted = Seq::<TraceEntry>::empty();
        match report {
            Some(count) => {
                let group_name = self.groups[index].name.clone();
                events.push(
                    ScannerMessage::IpScanned {
                        group_name,
                        total_ips: worker.total_ips,
                        scanned_count: count,
                    },
                );
                proof {
                    let entry = TraceEntry::Progress {
                        group: g,
                        total: worker.total_ips as nat,
                        scanned: count as nat,
                        at: Some(now_ms),
                    };
                    lemma_worker_emits(trace0, workers0, g, worker, entry);
                    lemma_done_count_push(trace0, entry);
                    emitted = emitted.push(entry);
                }
            },
            None => {
                proof {
                    lemma_worker_update(trace0, workers0, g, worker);
                }
            },
        }
        let ghost trace1 = trace0 + emitted;
        assert(trace_wf(trace1, workers1)) by {
            if report.is_some() {
                assert(trace1 =~= trace0.push(emitted[0]));
            } else {
                assert(trace1 =~= trace0);
            }
        }
        assert(done_count(trace1) == done_count(trace0)) by {
            if report.is_some() {
                assert(trace1 =~= trace0.push(emitted[0]));
            } else {
                assert(trace1 =~= trace0);
            }
        }
        match miner {
            Some(found) => {
                let group_name = self.groups[index].name.clone();
                proof {
                    let entry = TraceEntry::Discovered { group: g, miner: found };
                    assert(workers1[g] == worker);
                    lemma_worker_emits(trace1, workers1, g, worker, entry);
                    assert(workers1.update(g, worker) =~= workers1);
                    lemma_done_count_push(trace1, entry);
                    emitted = emitted.push(entry);
                }
                events.push(ScannerMessage::MinerDiscovered { group_name, miner: found });
            },
            None => {},
        }
        let ghost trace2 = trace0 + emitted;
        proof {
            if miner.is_some() {
                assert(trace2 =~= trace1.push(emitted.last()));
            } else {
                assert(trace2 =~= trace1);
            }
            assert(emitted =~= old(self).probe_entries(index, miner, now_ms));
            assert forall|p: int| 0 <= p < trace2.len() implies !((#[trigger] trace2[p]) is AllDone) by {
                if p < trace0.len() {
                    assert(trace2[p] == trace0[p]);
                } else {
                    assert(trace2[p] == emitted[p - trace0.len()]);
                }
            }
        }
        self.trace = Ghost(trace2);
        events
    }
}

/// The error text a group's terminal event carries: none for a scan that
/// ran to its end.
pub open spec fn outcome_text(result: Result<(), ScannerError>) -> Option<Seq<char>> {
    match result {
        Ok(_) => None,
        Err(error) => Some(error.message_text()),
    }
}

impl Scanner {
    /// Whether the group at `index` can still be brought to its end.
    pub open spec fn can_finish(self, index: usize) -> bool {
        self.accepts(index) && self.workers@[index as int].phase != GroupPhase::Completed
    }

    /// What is emitted when group `index` ends with `error`: the final
    /// progress report, where the throttle had held the last count back;
    /// the group's terminal event; and the terminal event of the scan, where
    /// this was the last group outstanding. Nothing for a group that has
    /// ended before.
    pub open spec fn finish_entries(self, index: usize, error: Option<Seq<char>>) -> Seq<
        TraceEntry,
    > {
        if self.can_finish(index) {
            let worker = self.workers@[index as int];
            let flush = if worker.reported_count < worker.scanned_count {
                seq![
                    TraceEntry::Progress {
                        group: index as int,
                        total: worker.total_ips as nat,
                        scanned: worker.scanned_count as nat,
                        at: None,
                    },
                ]
            } else {
                Seq::empty()
            };
            let all = if self.completed_groups + 1 == self.groups@.len() {
                seq![TraceEntry::AllDone]
            } else {
                Seq::empty()
            };
            flush + seq![TraceEntry::GroupDone { group: index as int, error }] + all
        } else {
            Seq::empty()
        }
    }

    /// The workers after group `index` has ended.
    pub open spec fn workers_after_finish(self, index: usize) -> Seq<GroupWorker> {
        if self.can_finish(index) {
            let worker = self.workers@[index as int];
            self.workers@.update(
                index as int,
                GroupWorker {
                    phase: GroupPhase::Completed,
                    reported_count: worker.scanned_count,
                    ..worker
                },
            )
        } else {
            self.workers@
        }
    }

    /// Takes note that the scan of group `index` has ended, well or with an
    /// error, and gives the messages to send.
    ///
    /// Each group ends once: a second end of the same group, or one for a
    /// group that does not exist, changes nothing and sends nothing.
    pub fn group_finished(&mut self, index: usize, result: Result<(), ScannerError>) -> (events: Vec<
        ScannerMessage,
    >)
        requires
            old(self).wf(),
        ensures
            final(self).wf(),
            final(self).groups == old(self).groups,
            final(self).buffer_size == old(self).buffer_size,
            final(self).completed_groups == old(self).completed_groups + if old(self).can_finish(
                index,
            ) {
                1nat
            } else {
                0nat
            },
            final(self).workers@ == old(self).workers_after_finish(index),
            final(self).trace@ == old(self).trace@ + old(self).finish_entries(
                index,
                outcome_text(result),
            ),
            depicts_all(
                events@,
                old(self).finish_entries(index, outcome_text(result)),
                old(self).groups@,
            ),
    {
        let mut events: Vec<ScannerMessage> = Vec::new();
        let ghost trace0 = self.trace@;
        let ghost workers0 = self.workers@;
        let ghost g = index as int;
        let ghost error = outcome_text(result);
        if self.finished || index >= self.groups.len() {
            assert(trace0 + Seq::<TraceEntry>::empty() =~= trace0);
            return events;
        }
        let mut worker = self.workers[index];
        if worker.phase == GroupPhase::Completed {
            assert(trace0 + Seq::<TraceEntry>::empty() =~= trace0);
            return events;
        }
        proof {
            lemma_worker_wf(trace0, workers0, g);
        }
        proof {
            lemma_completed_count_full(workers0);
        }
        let ghost mut emitted = Seq::<TraceEntry>::empty();
        let flushed = worker.flush();
        let ghost worker1 = worker;
        let ghost workers1 = workers0.update(g, worker1);
        match flushed {
            Some(count) => {
                let group_name = self.groups[index].name.clone();
                events.push(
                    ScannerMessage::IpScanned {
                        group_name,
                        total_ips: worker.total_ips,
                        scanned_count: count,
                    },
                );
                proof {
                    let entry = TraceEntry::Progress {
                        group: g,
                        total: worker.total_ips as nat,
                        scanned: count as nat,
                        at: None,
                    };
                    lemma_worker_emits(trace0, workers0, g, worker1, entry);
                    lemma_done_count_push(trace0, entry);
                    emitted = emitted.push(entry);
                }
            },
            None => {
                proof {
                    lemma_worker_update(trace0, workers0, g, worker1);
                }
            },
        }
        let ghost trace1 = trace0 + emitted;
        proof {
            if flushed.is_some() {
                assert(trace1 =~= trace0.push(emitted[0]));
            } else {
                assert(trace1 =~= trace0);
            }
            lemma_completed_count_update(workers0, g, worker1);
        }
        worker.phase = GroupPhase::Completed;
        self.workers[index] = worker;
        let ghost workers2 = workers1.update(g, worker);
        assert(self.workers@ =~= workers2);
        assert(workers2 =~= old(self).workers_after_finish(index));
        let group_name = self.groups[index].name.clone();
        let outcome: Result<(), String> = match result {
            Ok(_) => Ok(()),
            Err(failure) => Err(failure.message()),
        };
        events.push(ScannerMessage::GroupScanCompleted { group_name, result: outcome });
        proof {
            let entry = TraceEntry::GroupDone { group: g, error };
            assert(workers1[g] == worker1);
            lemma_worker_emits(trace1, workers1, g, worker, entry);
            lemma_done_count_push(trace1, entry);
            lemma_completed_count_update(workers1, g, worker);
            emitted = emitted.push(entry);
        }
        let ghost trace2 = trace0 + emitted;
        assert(trace2 =~= trace1.push(emitted.last()));
        self.completed_groups = self.completed_groups + 1;
        if self.completed_groups == self.groups.len() {
            events.push(ScannerMessage::AllScansCompleted);
            self.finished = true;
            proof {
                lemma_push_all_done(trace2, workers2);
                lemma_done_count_push(trace2, TraceEntry::AllDone);
                emitted = emitted.push(TraceEntry::AllDone);
            }
        }
        let ghost trace3 = trace0 + emitted;
        proof {
            if self.finished {
                assert(trace3 =~= trace2.push(TraceEntry::AllDone));
            } else {
                assert(trace3 =~= trace2);
            }
            assert(emitted =~= old(self).finish_entries(index, error));
            assert forall|p: int| 0 <= p < trace3.len() && (#[trigger] trace3[p]) is AllDone implies self.finished
                && p == trace3.len() - 1 by {
                if p < trace0.len() {
                    assert(trace3[p] == trace0[p]);
                } else {
                    assert(trace3[p] == emitted[p - trace0.len()]);
                }
            }
        }
        self.trace = Ghost(trace3);
        events
    }

    /// The workers after the range of group `index` was found to span
    /// `total_ips` hosts.
    pub open spec fn workers_after_begin(self, index: usize, total_ips: usize) -> Seq<GroupWorker> {
        if self.accepts(index) && self.workers@[index as int].phase == GroupPhase::Pending {
            self.workers@.update(
                index as int,
                GroupWorker {
                    phase: GroupPhase::Scanning,
                    validated: true,
                    total_ips,
                    ..self.workers@[index as int]
                },
            )
        } else {
            self.workers@
        }
    }

    /// Takes note that the range of group `index` is valid and spans
    /// `total_ips` hosts: from now on its probes are counted. Says whether
    /// the group was waiting for this; nothing changes if it was not.
    pub fn begin_group(&mut self, index: usize, total_ips: usize) -> (begun: bool)
        requires
            old(self).wf(),
        ensures
            final(self).wf(),
            final(self).groups == old(self).groups,
            final(self).completed_groups == old(self).completed_groups,
            final(self).finished == old(self).finished,
            final(self).buffer_size == old(self).buffer_size,
            final(self).trace@ == old(self).trace@,
            final(self).workers@ == old(self).workers_after_begin(index, total_ips),
            begun == (old(self).accepts(index) && old(self).workers@[index as int].phase
                == GroupPhase::Pending),
    {
        if self.finished || index >= self.groups.len() {
            return false;
        }
        let mut worker = self.workers[index];
        if worker.phase != GroupPhase::Pending {
            return false;
        }
        let ghost workers0 = self.workers@;
        proof {
            lemma_worker_wf(self.trace@, workers0, index as int);
        }
        worker.begin(total_ips);
        self.workers[index] = worker;
        proof {
            assert(self.workers@ =~= workers0.update(index as int, worker));
            lemma_worker_update(self.trace@, workers0, index as int, worker);
            lemma_completed_count_update(workers0, index as int, worker);
        }
        true
    }
}

/// The sum of the host counts of the ranges of `groups`, a refused range
/// counting as empty.
pub open spec fn total_estimated_hosts(groups: Seq<ScanGroup>) -> nat
    decreases groups.len(),
{
    if groups.len() == 0 {
        0
    } else {
        total_estimated_hosts(groups.drop_last()) + estimated_hosts(
            groups.last().network_range@,
        )
    }
}

/// `total` cut off at the largest count a machine word holds.
pub open spec fn capped(total: nat) -> nat {
    if total <= usize::MAX {
        total
    } else {
        usize::MAX as nat
    }
}

/// Adds up the host counts of the ranges of `groups`; a sum beyond the
/// largest machine word stays at that word.
pub fn estimate_total_ips(groups: &Vec<ScanGroup>) -> (total: usize)
    ensures
        total as nat == capped(total_estimated_hosts(groups@)),
{
    let mut total: usize = 0;
    let mut i: usize = 0;
    while i < groups.len()
        invariant
            i <= groups.len(),
            total as nat == capped(total_estimated_hosts(groups@.take(i as int))),
        decreases groups.len() - i,
    {
        let count = estimate_ip_count(groups[i].network_range.as_str());
        proof {
            let front = groups@.take(i + 1);
            assert(front.drop_last() =~= groups@.take(i as int));
            assert(front.last() == groups@[i as int]);
        }
        if count > usize::MAX - total {
            total = usize::MAX;
        } else {
            total = total + count;
        }
        i += 1;
    }
    assert(groups@.take(groups.len() as int) =~= groups@);
    total
}

/// Cutting an estimate off at the largest machine word does not change the
/// capacity derived from it.
pub proof fn lemma_buffer_size_capped(total: nat)
    ensures
        buffer_size_for(capped(total)) == buffer_size_for(total),
{
    assert(usize::MAX >= 0xFFFF_FFFF);
}

impl Scanner {
    /// Starts the bookkeeping of a scan of `groups`, sized by the number of
    /// hosts their ranges are estimated to span, and gives the messages to
    /// send first: the terminal event of the scan where there is no group,
    /// nothing otherwise.
    pub fn scan_multiple_groups(groups: Vec<ScanGroup>) -> (started: (
        Scanner,
        Vec<ScannerMessage>,
    ))
        ensures
            started.0.wf(),
            started.0.groups@ == groups@,
            forall|g: int|
                0 <= g < groups@.len() ==> (#[trigger] started.0.workers@[g]) == fresh_worker(),
            started.0.completed_groups == 0,
            started.0.finished == (groups@.len() == 0),
            started.0.buffer_size as nat == buffer_size_for(total_estimated_hosts(groups@)),
            started.0.trace@ == Self::opening_entries(groups@),
            depicts_all(started.1@, Self::opening_entries(groups@), groups@),
    {
        let estimated_total = estimate_total_ips(&groups);
        proof {
            lemma_buffer_size_capped(total_estimated_hosts(groups@));
        }
        Self::start(groups, estimated_total)
    }

    /// Whether the group at `index` still waits for its range to be
    /// validated.
    pub open spec fn can_open(self, index: usize) -> bool {
        self.accepts(index) && self.workers@[index as int].phase == GroupPhase::Pending
    }

    /// Validates the range of group `index` and either lets its probing
    /// begin or brings the group to its end.
    ///
    /// For a valid range the plan comes back: the hosts to probe and the
    /// filters to apply, and no message is due. For a range that is refused
    /// the group ends at once with the reason, and the messages of that end
    /// come back. A group that does not wait for this is left alone.
    pub fn open_group(&mut self, index: usize) -> (opened: (Option<ScanPlan>, Vec<ScannerMessage>))
        requires
            old(self).wf(),
        ensures
            final(self).wf(),
            final(self).groups == old(self).groups,
            final(self).buffer_size == old(self).buffer_size,
            !old(self).can_open(index) ==> {
                &&& opened.0.is_none()
                &&& opened.1@.len() == 0
                &&& final(self).workers@ == old(self).workers@
                &&& final(self).trace@ == old(self).trace@
                &&& final(self).completed_groups == old(self).completed_groups
            },
            old(self).can_open(index) ==> match resolve_range(
                old(self).groups@[index as int].network_range@,
            ) {
                Ok((form, count)) => {
                    &&& opened.0 matches Some(plan)
                    &&& plan.hosts.form == form
                    &&& plan.hosts.host_count as nat == count
                    &&& plan_matches(plan, plan.hosts, old(self).groups@[index as int].config)
                    &&& opened.1@.len() == 0
                    &&& final(self).workers@ == old(self).workers_after_begin(
                        index,
                        plan.hosts.host_count,
                    )
                    &&& final(self).trace@ == old(self).trace@
                    &&& final(self).completed_groups == old(self).completed_groups
                },
                Err(reason) => {
                    &&& opened.0.is_none()
                    &&& final(self).workers@ == old(self).workers_after_finish(index)
                    &&& final(self).trace@ == old(self).trace@ + old(self).finish_entries(
                        index,
                        Some("Invalid network range: "@ + reason),
                    )
                    &&& depicts_all(
                        opened.1@,
                        old(self).finish_entries(index, Some("Invalid network range: "@ + reason)),
                        old(self).groups@,
                    )
                    &&& final(self).completed_groups == old(self).completed_groups + 1
                },
            },
    {
        if self.finished || index >= self.groups.len() {
            return (None, Vec::new());
        }
        if self.workers[index].phase != GroupPhase::Pending {
            return (None, Vec::new());
        }
        let outcome = create_configured_miner_factory(
            self.groups[index].network_range.as_str(),
            &self.groups[index].config,
        );
        match outcome {
            Ok(plan) => {
                self.begin_group(index, plan.hosts.host_count);
                (Some(plan), Vec::new())
            },
            Err(error) => {
                let events = self.group_finished(index, Err(error));
                (None, events)
            },
        }
    }
}

/// Once a scan is finished, the terminal event of every group is on
/// record, there are exactly as many such events as groups, and the
/// terminal event of the scan closes the record.
pub proof fn lemma_finished_scan_complete(scanner: Scanner)
    requires
        scanner.wf(),
        scanner.finished,
    ensures
        done_count(scanner.trace@) == scanner.groups@.len(),
        forall|g: int| 0 <= g < scanner.groups@.len() ==> done_in(scanner.trace@, g),
        scanner.trace@.len() > 0,
        scanner.trace@.last() is AllDone,
        forall|p: int|
            0 <= p < scanner.trace@.len() - 1 ==> !((#[trigger] scanner.trace@[p]) is AllDone),
{
    reveal(trace_wf);
    lemma_completed_count_full(scanner.workers@);
    assert forall|g: int| 0 <= g < scanner.groups@.len() implies done_in(scanner.trace@, g) by {
        assert(scanner.workers@[g].phase == GroupPhase::Completed);
    }
}

/// At every moment of a scan, no group has more than one terminal event on
/// record, nothing of a group follows its terminal event, and the terminal
/// event of the scan is on record only when every group has ended.
pub proof fn lemma_terminal_events_once(scanner: Scanner)
    requires
        scanner.wf(),
    ensures
        forall|p: int, q: int|
            0 <= p < scanner.trace@.len() && 0 <= q < scanner.trace@.len() && (
            #[trigger] scanner.trace@[p]) is GroupDone && (#[trigger] scanner.trace@[q]) is GroupDone
                && scanner.trace@[p].group_of() == scanner.trace@[q].group_of() ==> p == q,
        forall|p: int, q: int|
            0 <= p < q < scanner.trace@.len() && (#[trigger] scanner.trace@[p]) is GroupDone ==> (
            #[trigger] scanner.trace@[q]).group_of() != scanner.trace@[p].group_of(),
        forall|p: int, g: int|
            0 <= p < scanner.trace@.len() && (#[trigger] scanner.trace@[p]) is AllDone && 0 <= g
                < scanner.groups@.len() ==> #[trigger] done_in(scanner.trace@, g),
        done_count(scanner.trace@) <= scanner.groups@.len(),
{
    reveal(trace_wf);
    let trace = scanner.trace@;
    lemma_completed_count_full(scanner.workers@);
    assert forall|p: int, q: int|
        0 <= p < trace.len() && 0 <= q < trace.len() && (#[trigger] trace[p]) is GroupDone && (
        #[trigger] trace[q]) is GroupDone && trace[p].group_of() == trace[q].group_of() implies p
        == q by {
        if p < q {
            assert(trace[q].group_of() != trace[p].group_of());
        }
        if q < p {
            assert(trace[p].group_of() != trace[q].group_of());
        }
    }
    assert forall|p: int, g: int|
        0 <= p < trace.len() && (#[trigger] trace[p]) is AllDone && 0 <= g
            < scanner.groups@.len() implies #[trigger] done_in(trace, g) by {
        assert(scanner.finished);
        assert(scanner.workers@[g].phase == GroupPhase::Completed);
    }
}

/// At every moment of a scan, the counts reported for one group never fall,
/// and each is at most the group's total, which every report of the group
/// carries.
pub proof fn lemma_progress_monotonic(scanner: Scanner)
    requires
        scanner.wf(),
    ensures
        forall|p: int, q: int|
            0 <= p < q < scanner.trace@.len() && (#[trigger] scanner.trace@[p]) is Progress && (
            #[trigger] scanner.trace@[q]) is Progress && scanner.trace@[p].group_of()
                == scanner.trace@[q].group_of() ==> scanner.trace@[p].scanned()
                <= scanner.trace@[q].scanned() && scanner.trace@[p].total()
                == scanner.trace@[q].total(),
        forall|p: int|
            0 <= p < scanner.trace@.len() && (#[trigger] scanner.trace@[p]) is Progress
                ==> scanner.trace@[p].scanned() <= scanner.trace@[p].total(),
{
    reveal(trace_wf);
    let trace = scanner.trace@;
    let workers = scanner.workers@;
    assert forall|p: int| 0 <= p < trace.len() && (#[trigger] trace[p]) is Progress implies trace[p].scanned()
        <= trace[p].total() by {
        let g = trace[p].group_of().unwrap();
        assert(workers[g].wf());
    }
}

/// At every moment of a scan, two throttled progress reports of one group
/// lie at least the throttle interval apart.
pub proof fn lemma_progress_spaced(scanner: Scanner)
    requires
        scanner.wf(),
    ensures
        forall|p: int, q: int|
            0 <= p < q < scanner.trace@.len() && (#[trigger] scanner.trace@[p]) is Progress && (
            #[trigger] scanner.trace@[q]) is Progress && scanner.trace@[p].group_of()
                == scanner.trace@[q].group_of() ==> (scanner.trace@[p].sent_at() matches Some(
                earlier,
            ) ==> (scanner.trace@[q].sent_at() matches Some(later) ==> later - earlier
                >= PROGRESS_THROTTLE_MS)),
{
    reveal(trace_wf);
    let trace = scanner.trace@;
    let workers = scanner.workers@;
    assert forall|p: int, q: int|
        0 <= p < q < trace.len() && (#[trigger] trace[p]) is Progress && (
        #[trigger] trace[q]) is Progress && trace[p].group_of() == trace[q].group_of() implies (
    trace[p].sent_at() matches Some(earlier) ==> (trace[q].sent_at() matches Some(later) ==> later
        - earlier >= PROGRESS_THROTTLE_MS)) by {
        let g = trace[p].group_of().unwrap();
        if trace[p].sent_at().is_some() && trace[q].sent_at().is_some() {
            assert(0 <= g < workers.len());
            assert(workers[g].throttle.interval_ms == PROGRESS_THROTTLE_MS);
        }
    }
}

/// At every moment of a scan, every event on record that belongs to a group
/// belongs to a group of the scan, and a group whose range was not found
/// valid has nothing on record but its terminal event.
pub proof fn lemma_events_belong(scanner: Scanner)
    requires
        scanner.wf(),
    ensures
        forall|p: int|
            0 <= p < scanner.trace@.len() ==> ((#[trigger] scanner.trace@[p]).group_of() matches Some(
                g,
            ) ==> 0 <= g < scanner.groups@.len()),
        forall|p: int|
            0 <= p < scanner.trace@.len() && !((#[trigger] scanner.trace@[p]) is GroupDone) ==> (
            scanner.trace@[p].group_of() matches Some(g) ==> scanner.workers@[g].validated),
{
    reveal(trace_wf);
}

impl Scanner {
    /// What is emitted when a device of group `index` is reported apart
    /// from the count of its host: the device, for a group that is being
    /// scanned, and nothing otherwise.
    pub open spec fn discovery_entries(self, index: usize, miner: MinerRecord) -> Seq<TraceEntry> {
        if self.accepts(index) && self.workers@[index as int].phase == GroupPhase::Scanning {
            seq![TraceEntry::Discovered { group: index as int, miner }]
        } else {
            Seq::empty()
        }
    }

    /// Takes note of a device that answered in group `index`, and gives the
    /// message to send. The device is reported at once, whatever the
    /// throttle says; no host is counted.
    pub fn miner_found(&mut self, index: usize, miner: MinerRecord) -> (events: Vec<ScannerMessage>)
        requires
            old(self).wf(),
        ensures
            final(self).wf(),
            final(self).groups == old(self).groups,
            final(self).workers == old(self).workers,
            final(self).completed_groups == old(self).completed_groups,
            final(self).finished == old(self).finished,
            final(self).buffer_size == old(self).buffer_size,
            final(self).trace@ == old(self).trace@ + old(self).discovery_entries(index, miner),
            depicts_all(events@, old(self).discovery_entries(index, miner), old(self).groups@),
    {
        let mut events: Vec<ScannerMessage> = Vec::new();
        let ghost trace0 = self.trace@;
        let ghost workers0 = self.workers@;
        let ghost g = index as int;
        if self.finished || index >= self.groups.len() {
            assert(trace0 + Seq::<TraceEntry>::empty() =~= trace0);
            return events;
        }
        if self.workers[index].phase != GroupPhase::Scanning {
            assert(trace0 + Seq::<TraceEntry>::empty() =~= trace0);
            return events;
        }
        let group_name = self.groups[index].name.clone();
        let ghost entry = TraceEntry::Discovered { group: g, miner };
        proof {
            lemma_worker_wf(trace0, workers0, g);
            lemma_worker_emits(trace0, workers0, g, workers0[g], entry);
            assert(workers0.update(g, workers0[g]) =~= workers0);
            lemma_done_count_push(trace0, entry);
            assert(trace0 + seq![entry] =~= trace0.push(entry));
            assert forall|p: int| 0 <= p < trace0.push(entry).len() implies !((
            #[trigger] trace0.push(entry)[p]) is AllDone) by {
                if p < trace0.len() {
                    assert(trace0.push(entry)[p] == trace0[p]);
                }
            }
        }
        events.push(ScannerMessage::MinerDiscovered { group_name, miner });
        self.trace = Ghost(trace0 + seq![entry]);
        events
    }
}

/// At every moment of a scan, the terminal event of the scan is on record
/// exactly when every group has ended: a scan of no group is finished from
/// the start, and no other scan before its last group ends.
pub proof fn lemma_finished_when_all_ended(scanner: Scanner)
    requires
        scanner.wf(),
    ensures
        scanner.finished <==> forall|g: int|
            0 <= g < scanner.groups@.len() ==> (#[trigger] scanner.workers@[g]).phase
                == GroupPhase::Completed,
        scanner.completed_groups <= scanner.groups@.len(),
{
    lemma_completed_count_full(scanner.workers@);
}

} // verus!
