//! The record of what a scan has emitted, and what holds of it at every
//! moment of the scan.
//!
//! The record exists in proofs only. It names groups by their position in
//! the list the scan was started with, so that two groups of one name stay
//! apart, and it keeps the time at which a throttled progress report went
//! out.

use crate::network::scanner::{GroupPhase, GroupWorker, MinerRecord};
use crate::throttle::throttle_allows;
use vstd::prelude::*;

verus! {

/// One emitted event.
pub enum TraceEntry {
    /// A device was reported for `group`.
    Discovered { group: int, miner: MinerRecord },
    /// Progress of `group` was reported; `at` is the time of a throttled
    /// report, and absent for the final report of a group.
    Progress { group: int, total: nat, scanned: nat, at: Option<u64> },
    /// `group` was reported done, with the text of its error if it failed.
    GroupDone { group: int, error: Option<Seq<char>> },
    /// The whole scan was reported done.
    AllDone,
}

impl TraceEntry {
    /// The group an entry belongs to.
    pub open spec fn group_of(self) -> Option<int> {
        match self {
            TraceEntry::Discovered { group, .. } => Some(group),
            TraceEntry::Progress { group, .. } => Some(group),
            TraceEntry::GroupDone { group, .. } => Some(group),
            TraceEntry::AllDone => None,
        }
    }

    /// Whether the entry is the terminal event of `group`.
    pub open spec fn is_done_of(self, group: int) -> bool {
        self matches TraceEntry::GroupDone { group: g, .. } && g == group
    }

    /// The count a progress report carries.
    pub open spec fn scanned(self) -> nat {
        match self {
            TraceEntry::Progress { scanned, .. } => scanned,
            _ => 0,
        }
    }

    /// The total a progress report carries.
    pub open spec fn total(self) -> nat {
        match self {
            TraceEntry::Progress { total, .. } => total,
            _ => 0,
        }
    }

    /// The time at which a throttled progress report went out.
    pub open spec fn sent_at(self) -> Option<u64> {
        match self {
            TraceEntry::Progress { at, .. } => at,
            _ => None,
        }
    }
}

/// Whether the terminal event of `group` is on record.
pub open spec fn done_in(trace: Seq<TraceEntry>, group: int) -> bool {
    exists|p: int| 0 <= p < trace.len() && (#[trigger] trace[p]).is_done_of(group)
}

/// The number of terminal group events on record.
pub open spec fn done_count(trace: Seq<TraceEntry>) -> nat
    decreases trace.len(),
{
    if trace.len() == 0 {
        0
    } else {
        done_count(trace.drop_last()) + if trace.last() is GroupDone {
            1nat
        } else {
            0nat
        }
    }
}

/// The number of workers that have completed.
pub open spec fn completed_count(workers: Seq<GroupWorker>) -> nat
    decreases workers.len(),
{
    if workers.len() == 0 {
        0
    } else {
        completed_count(workers.drop_last()) + if workers.last().phase == GroupPhase::Completed {
            1nat
        } else {
            0nat
        }
    }
}

/// Every entry belongs to a group of the scan: to one that is done, if it
/// is a terminal event, and to one whose range was found valid, if it is
/// any other.
pub open spec fn entries_belong(trace: Seq<TraceEntry>, workers: Seq<GroupWorker>) -> bool {
    forall|p: int|
        0 <= p < trace.len() ==> ((#[trigger] trace[p]).group_of() matches Some(g) ==> 0 <= g
            < workers.len() && workers[g].phase != GroupPhase::Pending && (trace[p] is GroupDone
            || workers[g].validated))
}

/// A group is completed exactly when its terminal event is on record.
pub open spec fn completion_recorded(trace: Seq<TraceEntry>, workers: Seq<GroupWorker>) -> bool {
    forall|g: int|
        0 <= g < workers.len() ==> ((#[trigger] workers[g]).phase == GroupPhase::Completed
            <==> done_in(trace, g))
}

/// Nothing follows the terminal event of a group for that group.
pub open spec fn done_is_last(trace: Seq<TraceEntry>) -> bool {
    forall|p: int, q: int|
        0 <= p < q < trace.len() && (#[trigger] trace[p]) is GroupDone ==> (
        #[trigger] trace[q]).group_of() != trace[p].group_of()
}

/// Every progress report carries its group's total, and a count that the
/// group has since reached.
pub open spec fn progress_bounded(trace: Seq<TraceEntry>, workers: Seq<GroupWorker>) -> bool {
    forall|p: int|
        0 <= p < trace.len() ==> ((#[trigger] trace[p]) matches TraceEntry::Progress {
            group,
            total,
            scanned,
            at,
        } ==> 0 <= group < workers.len() && total == workers[group].total_ips && scanned
            <= workers[group].reported_count && (at matches Some(t)
            ==> workers[group].throttle.last_emit matches Some(last) && t <= last))
}

/// The counts reported for one group never fall.
pub open spec fn progress_monotonic(trace: Seq<TraceEntry>) -> bool {
    forall|p: int, q: int|
        0 <= p < q < trace.len() && (#[trigger] trace[p]) is Progress && (
        #[trigger] trace[q]) is Progress && trace[p].group_of() == trace[q].group_of()
            ==> trace[p].scanned() <= trace[q].scanned()
}

/// Two throttled reports of one group lie at least the group's interval
/// apart.
pub open spec fn progress_spaced(trace: Seq<TraceEntry>, workers: Seq<GroupWorker>) -> bool {
    forall|p: int, q: int|
        0 <= p < q < trace.len() && (#[trigger] trace[p]) is Progress && (
        #[trigger] trace[q]) is Progress && trace[p].group_of() == trace[q].group_of()
            ==> (trace[p].sent_at() matches Some(earlier) ==> (trace[q].sent_at() matches Some(
            later,
        ) ==> trace[p].group_of() matches Some(g) && 0 <= g < workers.len() && later - earlier
            >= workers[g].throttle.interval_ms))
}

/// What holds of the record and the workers together, whatever has
/// happened so far.
#[verifier::opaque]
pub open spec fn trace_wf(trace: Seq<TraceEntry>, workers: Seq<GroupWorker>) -> bool {
    &&& forall|g: int| 0 <= g < workers.len() ==> (#[trigger] workers[g]).wf()
    &&& entries_belong(trace, workers)
    &&& completion_recorded(trace, workers)
    &&& done_is_last(trace)
    &&& progress_bounded(trace, workers)
    &&& progress_monotonic(trace)
    &&& progress_spaced(trace, workers)
}

/// Whether a worker may move from `before` to `after` without an event
/// being emitted, or with one that is not terminal: the phase does not go
/// back, and once the range is validated the total, the throttle interval
/// and the order of counts and times are kept.
pub open spec fn worker_advances(before: GroupWorker, after: GroupWorker) -> bool {
    &&& after.wf()
    &&& before.validated ==> after.validated
    &&& before.phase != GroupPhase::Pending ==> {
        &&& after.phase != GroupPhase::Pending
        &&& after.total_ips == before.total_ips
        &&& after.reported_count >= before.reported_count
        &&& after.throttle.interval_ms == before.throttle.interval_ms
        &&& (before.throttle.last_emit matches Some(earlier)
            ==> after.throttle.last_emit matches Some(later) && later >= earlier)
    }
}

/// Whether `entry` is an event that the worker of group `g` may emit while it
/// moves from `before` to `after`.
pub open spec fn entry_fits(entry: TraceEntry, g: int, before: GroupWorker, after: GroupWorker) -> bool {
    &&& entry.group_of() == Some(g)
    &&& before.phase != GroupPhase::Completed
    &&& after.phase != GroupPhase::Pending
    &&& (after.phase == GroupPhase::Completed <==> entry is GroupDone)
    &&& entry is GroupDone || after.validated
    &&& entry is Progress ==> {
        &&& entry.total() == after.total_ips
        &&& entry.scanned() == after.reported_count
        &&& (entry.sent_at() matches Some(t) ==> after.throttle.last_emit == Some(t)
            && throttle_allows(before.throttle.last_emit, before.throttle.interval_ms, t))
    }
}

/// A worker that advances without emitting anything leaves the record in
/// order.
pub proof fn lemma_worker_update(
    trace: Seq<TraceEntry>,
    workers: Seq<GroupWorker>,
    g: int,
    after: GroupWorker,
)
    requires
        trace_wf(trace, workers),
        0 <= g < workers.len(),
        worker_advances(workers[g], after),
        (after.phase == GroupPhase::Completed) == (workers[g].phase == GroupPhase::Completed),
    ensures
        trace_wf(trace, workers.update(g, after)),
{
    reveal(trace_wf);
    let moved = workers.update(g, after);
    assert forall|h: int| 0 <= h < moved.len() implies (#[trigger] moved[h]).wf() by {
        if h != g {
            assert(moved[h] == workers[h]);
            assert(workers[h].wf());
        }
    }
    assert forall|p: int| 0 <= p < trace.len() implies ((#[trigger] trace[p]).group_of() matches Some(
        h,
    ) ==> 0 <= h < moved.len() && moved[h].phase != GroupPhase::Pending && (trace[p] is GroupDone
        || moved[h].validated)) by {}
    assert forall|h: int| 0 <= h < moved.len() implies ((#[trigger] moved[h]).phase
        == GroupPhase::Completed <==> done_in(trace, h)) by {
        assert(workers[h].phase == GroupPhase::Completed <==> done_in(trace, h));
    }
    assert forall|p: int| 0 <= p < trace.len() implies ((#[trigger] trace[p]) matches TraceEntry::Progress {
        group,
        total,
        scanned,
        at,
    } ==> 0 <= group < moved.len() && total == moved[group].total_ips && scanned
        <= moved[group].reported_count && (at matches Some(t)
        ==> moved[group].throttle.last_emit matches Some(last) && t <= last)) by {}
    assert forall|p: int, q: int|
        0 <= p < q < trace.len() && (#[trigger] trace[p]) is Progress && (
        #[trigger] trace[q]) is Progress && trace[p].group_of() == trace[q].group_of() implies (
    trace[p].sent_at() matches Some(earlier) ==> (trace[q].sent_at() matches Some(later)
        ==> trace[p].group_of() matches Some(h) && 0 <= h < moved.len() && later - earlier
        >= moved[h].throttle.interval_ms)) by {}
}

/// A worker that advances and emits one fitting event leaves the record,
/// with that event added, in order.
pub proof fn lemma_worker_emits(
    trace: Seq<TraceEntry>,
    workers: Seq<GroupWorker>,
    g: int,
    after: GroupWorker,
    entry: TraceEntry,
)
    requires
        trace_wf(trace, workers),
        0 <= g < workers.len(),
        worker_advances(workers[g], after),
        entry_fits(entry, g, workers[g], after),
    ensures
        trace_wf(trace.push(entry), workers.update(g, after)),
{
    reveal(trace_wf);
    let moved = workers.update(g, after);
    let next = trace.push(entry);
    let last = trace.len() as int;
    assert(workers[g].phase == GroupPhase::Completed <==> done_in(trace, g));
    assert forall|h: int| 0 <= h < moved.len() implies (#[trigger] moved[h]).wf() by {
        if h != g {
            assert(moved[h] == workers[h]);
            assert(workers[h].wf());
        }
    }
    assert forall|p: int| 0 <= p < next.len() implies ((#[trigger] next[p]).group_of() matches Some(
        h,
    ) ==> 0 <= h < moved.len() && moved[h].phase != GroupPhase::Pending && (next[p] is GroupDone
        || moved[h].validated)) by {
        if p < last {
            assert(next[p] == trace[p]);
        }
    }
    assert forall|h: int| 0 <= h < moved.len() implies ((#[trigger] moved[h]).phase
        == GroupPhase::Completed <==> done_in(next, h)) by {
        lemma_done_in_push(trace, entry, h);
        assert(workers[h].phase == GroupPhase::Completed <==> done_in(trace, h));
    }
    assert forall|p: int, q: int|
        0 <= p < q < next.len() && (#[trigger] next[p]) is GroupDone implies (
    #[trigger] next[q]).group_of() != next[p].group_of() by {
        assert(next[p] == trace[p]);
        if q < last {
            assert(next[q] == trace[q]);
        } else {
            if trace[p].group_of() == Some(g) {
                assert(trace[p].is_done_of(g));
                assert(done_in(trace, g));
            }
        }
    }
    assert forall|p: int| 0 <= p < next.len() implies ((#[trigger] next[p]) matches TraceEntry::Progress {
        group,
        total,
        scanned,
        at,
    } ==> 0 <= group < moved.len() && total == moved[group].total_ips && scanned
        <= moved[group].reported_count && (at matches Some(t)
        ==> moved[group].throttle.last_emit matches Some(sent) && t <= sent)) by {
        if p < last {
            assert(next[p] == trace[p]);
        }
    }
    assert forall|p: int, q: int|
        0 <= p < q < next.len() && (#[trigger] next[p]) is Progress && (
        #[trigger] next[q]) is Progress && next[p].group_of() == next[q].group_of() implies next[p].scanned()
        <= next[q].scanned() by {
        assert(next[p] == trace[p]);
        if q < last {
            assert(next[q] == trace[q]);
        }
    }
    assert forall|p: int, q: int|
        0 <= p < q < next.len() && (#[trigger] next[p]) is Progress && (
        #[trigger] next[q]) is Progress && next[p].group_of() == next[q].group_of() implies (
    next[p].sent_at() matches Some(earlier) ==> (next[q].sent_at() matches Some(later)
        ==> next[p].group_of() matches Some(h) && 0 <= h < moved.len() && later - earlier
        >= moved[h].throttle.interval_ms)) by {
        assert(next[p] == trace[p]);
        if q < last {
            assert(next[q] == trace[q]);
        }
    }
}

/// After one more entry, the terminal event of `group` is on record if it
/// was before or if the entry is it.
pub proof fn lemma_done_in_push(trace: Seq<TraceEntry>, entry: TraceEntry, group: int)
    ensures
        done_in(trace.push(entry), group) <==> done_in(trace, group) || entry.is_done_of(group),
{
    let next = trace.push(entry);
    if done_in(trace, group) {
        let p = choose|p: int| 0 <= p < trace.len() && (#[trigger] trace[p]).is_done_of(group);
        assert(next[p].is_done_of(group));
    }
    if entry.is_done_of(group) {
        assert(next[trace.len() as int].is_done_of(group));
    }
    if done_in(next, group) {
        let p = choose|p: int| 0 <= p < next.len() && (#[trigger] next[p]).is_done_of(group);
        if p < trace.len() {
            assert(trace[p].is_done_of(group));
        }
    }
}

/// One more entry raises the number of terminal group events by one if it
/// is such an event, and leaves it otherwise.
pub proof fn lemma_done_count_push(trace: Seq<TraceEntry>, entry: TraceEntry)
    ensures
        done_count(trace.push(entry)) == done_count(trace) + if entry is GroupDone {
            1nat
        } else {
            0nat
        },
{
    assert(trace.push(entry).drop_last() =~= trace);
}

/// Replacing one worker changes the number of completed workers by what
/// that worker adds or takes away.
pub proof fn lemma_completed_count_update(workers: Seq<GroupWorker>, g: int, after: GroupWorker)
    requires
        0 <= g < workers.len(),
    ensures
        completed_count(workers.update(g, after)) + (if workers[g].phase
            == GroupPhase::Completed {
            1nat
        } else {
            0nat
        }) == completed_count(workers) + (if after.phase == GroupPhase::Completed {
            1nat
        } else {
            0nat
        }),
    decreases workers.len(),
{
    let moved = workers.update(g, after);
    if g == workers.len() - 1 {
        assert(moved.drop_last() =~= workers.drop_last());
    } else {
        assert(moved.drop_last() =~= workers.drop_last().update(g, after));
        lemma_completed_count_update(workers.drop_last(), g, after);
    }
}

/// No more workers are completed than there are, and all of them are
/// exactly when the count says so.
pub proof fn lemma_completed_count_full(workers: Seq<GroupWorker>)
    ensures
        completed_count(workers) <= workers.len(),
        completed_count(workers) == workers.len() <==> forall|g: int|
            0 <= g < workers.len() ==> (#[trigger] workers[g]).phase == GroupPhase::Completed,
    decreases workers.len(),
{
    if workers.len() > 0 {
        let front = workers.drop_last();
        lemma_completed_count_full(front);
        if completed_count(workers) == workers.len() {
            assert forall|g: int| 0 <= g < workers.len() implies (#[trigger] workers[g]).phase
                == GroupPhase::Completed by {
                if g < front.len() {
                    assert(front[g] == workers[g]);
                }
            }
        }
        if forall|g: int|
            0 <= g < workers.len() ==> (#[trigger] workers[g]).phase == GroupPhase::Completed {
            assert forall|g: int| 0 <= g < front.len() implies (#[trigger] front[g]).phase
                == GroupPhase::Completed by {
                assert(front[g] == workers[g]);
            }
            assert(workers.last() == workers[workers.len() - 1]);
        }
    }
}

/// Fresh workers, none of them completed.
pub proof fn lemma_completed_count_fresh(workers: Seq<GroupWorker>)
    requires
        forall|g: int| 0 <= g < workers.len() ==> (#[trigger] workers[g]).phase
            != GroupPhase::Completed,
    ensures
        completed_count(workers) == 0,
    decreases workers.len(),
{
    if workers.len() > 0 {
        let front = workers.drop_last();
        assert forall|g: int| 0 <= g < front.len() implies (#[trigger] front[g]).phase
            != GroupPhase::Completed by {
            assert(front[g] == workers[g]);
        }
        lemma_completed_count_fresh(front);
        assert(workers.last() == workers[workers.len() - 1]);
    }
}

/// Recording that the whole scan is done keeps the record in order.
pub proof fn lemma_push_all_done(trace: Seq<TraceEntry>, workers: Seq<GroupWorker>)
    requires
        trace_wf(trace, workers),
    ensures
        trace_wf(trace.push(TraceEntry::AllDone), workers),
{
    reveal(trace_wf);
    let entry = TraceEntry::AllDone;
    let next = trace.push(entry);
    let last = trace.len() as int;
    assert forall|p: int| 0 <= p < next.len() implies ((#[trigger] next[p]).group_of() matches Some(
        h,
    ) ==> 0 <= h < workers.len() && workers[h].phase != GroupPhase::Pending && (next[p] is GroupDone
        || workers[h].validated)) by {
        if p < last {
            assert(next[p] == trace[p]);
        }
    }
    assert forall|h: int| 0 <= h < workers.len() implies ((#[trigger] workers[h]).phase
        == GroupPhase::Completed <==> done_in(next, h)) by {
        lemma_done_in_push(trace, entry, h);
    }
    assert forall|p: int, q: int|
        0 <= p < q < next.len() && (#[trigger] next[p]) is GroupDone implies (
    #[trigger] next[q]).group_of() != next[p].group_of() by {
        assert(next[p] == trace[p]);
        if q < last {
            assert(next[q] == trace[q]);
        }
    }
    assert forall|p: int| 0 <= p < next.len() implies ((#[trigger] next[p]) matches TraceEntry::Progress {
        group,
        total,
        scanned,
        at,
    } ==> 0 <= group < workers.len() && total == workers[group].total_ips && scanned
        <= workers[group].reported_count && (at matches Some(t)
        ==> workers[group].throttle.last_emit matches Some(sent) && t <= sent)) by {
        if p < last {
            assert(next[p] == trace[p]);
        }
    }
    assert forall|p: int, q: int|
        0 <= p < q < next.len() && (#[trigger] next[p]) is Progress && (
        #[trigger] next[q]) is Progress && next[p].group_of() == next[q].group_of() implies next[p].scanned()
        <= next[q].scanned() by {
        assert(next[p] == trace[p]);
        assert(next[q] == trace[q]);
    }
    assert forall|p: int, q: int|
        0 <= p < q < next.len() && (#[trigger] next[p]) is Progress && (
        #[trigger] next[q]) is Progress && next[p].group_of() == next[q].group_of() implies (
    next[p].sent_at() matches Some(earlier) ==> (next[q].sent_at() matches Some(later)
        ==> next[p].group_of() matches Some(h) && 0 <= h < workers.len() && later - earlier
        >= workers[h].throttle.interval_ms)) by {
        assert(next[p] == trace[p]);
        assert(next[q] == trace[q]);
    }
}

/// Before anything has been emitted, with no worker completed, the record
/// is in order.
pub proof fn lemma_trace_fresh(workers: Seq<GroupWorker>)
    requires
        forall|g: int| 0 <= g < workers.len() ==> (#[trigger] workers[g]).wf() && workers[g].phase
            != GroupPhase::Completed,
    ensures
        trace_wf(Seq::<TraceEntry>::empty(), workers),
{
    reveal(trace_wf);
    let trace = Seq::<TraceEntry>::empty();
    assert forall|h: int| 0 <= h < workers.len() implies ((#[trigger] workers[h]).phase
        == GroupPhase::Completed <==> done_in(trace, h)) by {
        assert(workers[h].wf() && workers[h].phase != GroupPhase::Completed);
    }
}

/// Every worker of a record in order has its counts in order.
pub proof fn lemma_worker_wf(trace: Seq<TraceEntry>, workers: Seq<GroupWorker>, g: int)
    requires
        trace_wf(trace, workers),
        0 <= g < workers.len(),
    ensures
        workers[g].wf(),
{
    reveal(trace_wf);
}

} // verus!
