//! Bounded histories of metric samples: a series keeps the most recent
//! samples up to its capacity and forgets the oldest first.

use vstd::prelude::*;
use std::collections::VecDeque;

verus! {

/// The last `capacity` elements of `samples`, or all of them when there
/// are no more than that.
pub open spec fn most_recent<T>(samples: Seq<T>, capacity: nat) -> Seq<T> {
    if samples.len() > capacity {
        samples.subrange(samples.len() - capacity, samples.len() as int)
    } else {
        samples
    }
}

/// The series after `sample` was recorded in it.
pub open spec fn recorded<T>(samples: Seq<T>, sample: T, capacity: nat) -> Seq<T> {
    most_recent(samples.push(sample), capacity)
}

/// The series after each of `samples` was recorded in it, in order.
pub open spec fn recorded_all<T>(series: Seq<T>, samples: Seq<T>, capacity: nat) -> Seq<T>
    decreases samples.len(),
{
    if samples.len() == 0 {
        series
    } else {
        recorded(recorded_all(series, samples.drop_last(), capacity), samples.last(), capacity)
    }
}

/// Records `sample` as the newest of `series` and evicts the oldest
/// samples beyond `capacity`.
pub fn record<T>(series: &mut VecDeque<T>, sample: T, capacity: usize)
    ensures
        final(series)@ == recorded(old(series)@, sample, capacity as nat),
        final(series)@.len() <= capacity,
{
    series.push_back(sample);
    let ghost all = series@;
    while series.len() > capacity
        invariant
            all == old(series)@.push(sample),
            series@.len() <= all.len(),
            series@.len() >= capacity || series@.len() == all.len(),
            series@ == all.subrange(all.len() - series@.len(), all.len() as int),
        decreases series@.len(),
    {
        let _ = series.pop_front();
        assert(series@ =~= all.subrange(all.len() - series@.len(), all.len() as int));
    }
    assert(all.subrange(0, all.len() as int) =~= all);
}

/// Recording into a series that is within its capacity evicts at most the
/// oldest sample.
pub proof fn lemma_record_evicts_oldest<T>(series: Seq<T>, sample: T, capacity: nat)
    requires
        series.len() <= capacity,
    ensures
        series.len() < capacity ==> recorded(series, sample, capacity) == series.push(sample),
        series.len() == capacity ==> recorded(series, sample, capacity) == series.push(
            sample,
        ).drop_first(),
{
    if series.len() == capacity {
        assert(series.push(sample).subrange(1, capacity as int + 1) =~= series.push(sample).drop_first());
    }
}

/// However many samples are recorded, the series holds the most recent
/// ones up to its capacity, oldest first: exactly `capacity` of them once
/// that many have come in.
pub proof fn lemma_history_keeps_most_recent<T>(series: Seq<T>, samples: Seq<T>, capacity: nat)
    requires
        series.len() <= capacity,
    ensures
        recorded_all(series, samples, capacity) == most_recent(series + samples, capacity),
        recorded_all(series, samples, capacity).len() <= capacity,
        series.len() + samples.len() >= capacity ==> recorded_all(
            series,
            samples,
            capacity,
        ).len() == capacity,
    decreases samples.len(),
{
    if samples.len() == 0 {
        assert(series + samples =~= series);
    } else {
        let earlier = samples.drop_last();
        lemma_history_keeps_most_recent(series, earlier, capacity);
        assert((series + earlier).push(samples.last()) =~= series + samples);
        assert(recorded_all(series, samples, capacity) =~= most_recent(series + samples, capacity));
    }
}

} // verus!
