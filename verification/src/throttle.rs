//! Rate limiting of progress reports: a small state machine over timestamps.
//!
//! Time is a count of milliseconds read from a monotonic clock by the caller.

use vstd::prelude::*;

verus! {

/// Reference spacing between two forwarded progress reports of one group.
pub const PROGRESS_THROTTLE_MS: u64 = 100;

/// Whether a report at `now` may pass when the previous one passed at `last`.
///
/// Nothing passed yet: it may. Otherwise at least `interval` milliseconds
/// must lie between the two; a clock that stepped backwards counts as no
/// time elapsed.
pub open spec fn throttle_allows(last: Option<u64>, interval: u64, now: u64) -> bool {
    match last {
        None => true,
        Some(t) => now >= t && now - t >= interval,
    }
}

/// The timestamps, out of `times` in order, that a throttle in state `last`
/// lets through.
pub open spec fn forwarded_times(last: Option<u64>, interval: u64, times: Seq<u64>) -> Seq<u64>
    decreases times.len(),
{
    if times.len() == 0 {
        Seq::empty()
    } else if throttle_allows(last, interval, times[0]) {
        seq![times[0]] + forwarded_times(Some(times[0]), interval, times.drop_first())
    } else {
        forwarded_times(last, interval, times.drop_first())
    }
}

/// Per-group throttle state: when the last progress report went through.
#[derive(Debug, Clone, Copy, PartialEq, Eq)]
pub struct ProgressThrottle {
    pub interval_ms: u64,
    pub last_emit: Option<u64>,
}

impl ProgressThrottle {
    /// A throttle that has let nothing through yet.
    pub fn new(interval_ms: u64) -> (t: Self)
        ensures
            t.interval_ms == interval_ms,
            t.last_emit.is_none(),
    {
        ProgressThrottle { interval_ms, last_emit: None }
    }

    /// Decides whether a progress report produced at `now_ms` is forwarded,
    /// and remembers the time if it is.
    pub fn should_emit(&mut self, now_ms: u64) -> (emit: bool)
        ensures
            emit == throttle_allows(old(self).last_emit, old(self).interval_ms, now_ms),
            final(self).interval_ms == old(self).interval_ms,
            final(self).last_emit == if emit {
                Some(now_ms)
            } else {
                old(self).last_emit
            },
    {
        let pass = match self.last_emit {
            None => true,
            Some(t) => now_ms >= t && now_ms - t >= self.interval_ms,
        };
        if pass {
            self.last_emit = Some(now_ms);
        }
        pass
    }
}

/// Every forwarded timestamp is one of the offered ones, and none comes
/// sooner than `interval` after the state's last emission.
pub proof fn lemma_forwarded_after_last(last: Option<u64>, interval: u64, times: Seq<u64>)
    ensures
        forall|i: int|
            0 <= i < forwarded_times(last, interval, times).len() ==> {
                &&& times.contains(#[trigger] forwarded_times(last, interval, times)[i])
                &&& (last matches Some(t) ==> forwarded_times(last, interval, times)[i] - t
                    >= interval)
            },
    decreases times.len(),
{
    if times.len() > 0 {
        let rest = times.drop_first();
        let out = forwarded_times(last, interval, times);
        if throttle_allows(last, interval, times[0]) {
            lemma_forwarded_after_last(Some(times[0]), interval, rest);
            let tail = forwarded_times(Some(times[0]), interval, rest);
            assert forall|i: int| 0 <= i < out.len() implies {
                &&& times.contains(#[trigger] out[i])
                &&& (last matches Some(t) ==> out[i] - t >= interval)
            } by {
                if i == 0 {
                    assert(times[0] == out[0]);
                } else {
                    assert(out[i] == tail[i - 1]);
                    assert(rest.contains(tail[i - 1]));
                    let k = choose|k: int| 0 <= k < rest.len() && rest[k] == tail[i - 1];
                    assert(times[k + 1] == out[i]);
                }
            }
        } else {
            lemma_forwarded_after_last(last, interval, rest);
            let same = forwarded_times(last, interval, rest);
            assert(out == same);
            assert forall|i: int| 0 <= i < out.len() implies {
                &&& times.contains(#[trigger] out[i])
                &&& (last matches Some(t) ==> out[i] - t >= interval)
            } by {
                assert(out[i] == same[i]);
                assert(rest.contains(same[i]));
                let k = choose|k: int| 0 <= k < rest.len() && rest[k] == same[i];
                assert(times[k + 1] == out[i]);
            }
        }
    }
}

/// Any two consecutive forwarded timestamps lie at least `interval` apart,
/// whatever timestamps were offered and in whatever order.
pub proof fn lemma_forwarded_spacing(last: Option<u64>, interval: u64, times: Seq<u64>)
    ensures
        forall|i: int|
            0 <= i && i + 1 < forwarded_times(last, interval, times).len() ==> (
            #[trigger] forwarded_times(last, interval, times)[i + 1]) - forwarded_times(
                last,
                interval,
                times,
            )[i] >= interval,
    decreases times.len(),
{
    if times.len() > 0 {
        let rest = times.drop_first();
        let out = forwarded_times(last, interval, times);
        if throttle_allows(last, interval, times[0]) {
            let tail = forwarded_times(Some(times[0]), interval, rest);
            lemma_forwarded_spacing(Some(times[0]), interval, rest);
            lemma_forwarded_after_last(Some(times[0]), interval, rest);
            assert forall|i: int| 0 <= i && i + 1 < out.len() implies (#[trigger] out[i + 1])
                - out[i] >= interval by {
                if i == 0 {
                    assert(out[0] == times[0]);
                    assert(out[1] == tail[0]);
                } else {
                    assert(out[i] == tail[i - 1]);
                    assert(out[i + 1] == tail[(i - 1) + 1]);
                }
            }
        } else {
            lemma_forwarded_spacing(last, interval, rest);
            assert(out == forwarded_times(last, interval, rest));
        }
    }
}

/// The first report offered to a fresh throttle always goes through.
pub proof fn lemma_first_report_forwarded(interval: u64, times: Seq<u64>)
    requires
        times.len() > 0,
    ensures
        forwarded_times(None, interval, times).len() > 0,
        forwarded_times(None, interval, times)[0] == times[0],
{
}

} // verus!
