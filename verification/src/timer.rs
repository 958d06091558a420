//! Timing arithmetic for the harness.
//!
//! The harness reads a monotonic clock before and after each unit of work and
//! reports the difference. The clock reads themselves happen outside the
//! library; here the readings are plain nanosecond counts, and the arithmetic
//! on them is verified: a duration is the saturating difference of two
//! readings, so it is well defined even for a clock that hands back equal
//! readings twice.

use vstd::prelude::*;

verus! {

/// The duration, in nanoseconds, between a start reading and an end reading of
/// a monotonic clock. A monotonic clock never hands back a reading smaller
/// than an earlier one, so the saturation arm is only a guard; the result is
/// exact whenever `end >= start`.
pub open spec fn spec_duration_between(start: u64, end: u64) -> u64 {
    if end >= start {
        (end - start) as u64
    } else {
        0
    }
}

/// Elapsed nanoseconds between two readings of a monotonic clock.
pub fn duration_between(start: u64, end: u64) -> (d: u64)
    ensures
        d == spec_duration_between(start, end),
        end >= start ==> d == end - start,
{
    if end >= start {
        end - start
    } else {
        0
    }
}

/// The readings never decrease: what a monotonic clock guarantees of a
/// sequence of reads taken one after the other.
pub open spec fn monotone(r: Seq<u64>) -> bool {
    forall|i: int, j: int| 0 <= i <= j < r.len() ==> r[i] <= r[j]
}

/// The sum of the durations measured by consecutive reading pairs: `r` is
/// `[start, end, start, end, ...]`, one pair per timed unit of work.
pub open spec fn pair_durations_sum(r: Seq<u64>) -> int
    decreases r.len(),
{
    if r.len() < 2 {
        0
    } else {
        spec_duration_between(r[0], r[1]) + pair_durations_sum(r.skip(2))
    }
}

/// Timing monotonicity. Every measured duration is non-negative by
/// construction; and when the clock readings nest — the run's start reading
/// first, then each query's start and end readings in order, then the run's
/// end reading last — the whole-run duration is at least the sum of all the
/// per-query durations.
pub proof fn lemma_run_duration_covers_queries(r: Seq<u64>)
    requires
        r.len() >= 2,
        r.len() % 2 == 0,
        monotone(r),
    ensures
        pair_durations_sum(r.subrange(1, r.len() - 1)) <= spec_duration_between(
            r[0],
            r[r.len() - 1],
        ),
    decreases r.len(),
{
    let inner = r.subrange(1, r.len() - 1);
    if r.len() == 2 {
        assert(inner.len() == 0);
    } else {
        let r2 = r.skip(2);
        assert(r2.len() == r.len() - 2);
        assert(r2.len() % 2 == 0) by {
            assert(r2.len() == r.len() - 2);
        }
        assert(monotone(r2)) by {
            assert forall|i: int, j: int| 0 <= i <= j < r2.len() implies r2[i] <= r2[j] by {
                assert(r2[i] == r[i + 2]);
                assert(r2[j] == r[j + 2]);
            }
        }
        lemma_run_duration_covers_queries(r2);
        assert(inner.skip(2) =~= r2.subrange(1, r2.len() - 1));
        assert(pair_durations_sum(inner) == spec_duration_between(inner[0], inner[1])
            + pair_durations_sum(inner.skip(2)));
        assert(inner[0] == r[1]);
        assert(inner[1] == r[2]);
        assert(r2[0] == r[2]);
        assert(r2[r2.len() - 1] == r[r.len() - 1]);
        assert(r[0] <= r[1]);
        assert(r[1] <= r[2]);
        assert(r[2] <= r[r.len() - 1]);
    }
}

} // verus!
