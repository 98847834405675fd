//! Stall-tolerant buffered assembly: fill a fixed-size byte region from the
//! shared FIFO within a deadline. Progress is tracked against a named,
//! tunable stall policy: once a size-dependent completion ratio is met and
//! neither the fill count nor the transport has advanced for a short window,
//! the partial fill is accepted and the tail zero-filled rather than the
//! whole frame discarded. Independently, a hard per-call deadline turns the
//! fill into an incomplete result. The embedding program runs the poll loop;
//! every decision is taken here.

use std::collections::VecDeque;
use vstd::prelude::*;

verus! {

/// The lossy-degradation policy for stalled fills: completion-ratio tiers
/// (in thousandths, keyed by requested size) and the two quiet windows that
/// must both have passed before a partial fill is accepted.
#[derive(Debug, Clone, Copy, PartialEq, Eq, Structural)]
pub struct StallPolicy {
    /// Largest request size of the small tier.
    pub small_max: usize,
    /// Completion threshold for the small tier, in thousandths.
    pub small_permille: u32,
    /// Largest request size of the medium tier.
    pub medium_max: usize,
    /// Completion threshold for the medium tier, in thousandths.
    pub medium_permille: u32,
    /// Completion threshold above the medium tier, in thousandths.
    pub large_permille: u32,
    /// How long the fill count must have stood still, in milliseconds.
    pub stall_window_ms: u64,
    /// How long the transport must have delivered nothing, in milliseconds.
    pub recent_window_ms: u64,
}

/// The completion threshold the policy asks of a request of `size` bytes,
/// in thousandths.
pub open spec fn policy_permille(p: StallPolicy, size: int) -> int {
    if size <= p.small_max {
        p.small_permille as int
    } else if size <= p.medium_max {
        p.medium_permille as int
    } else {
        p.large_permille as int
    }
}

/// A stalled fill of `filled` out of `goal` bytes may be accepted: the
/// completion ratio meets the size tier, and both quiet windows have passed.
pub open spec fn policy_accepts(
    p: StallPolicy,
    filled: int,
    goal: int,
    stalled_ms: int,
    quiet_ms: int,
) -> bool {
    &&& filled * 1000 >= goal * policy_permille(p, goal)
    &&& stalled_ms > p.stall_window_ms
    &&& quiet_ms > p.recent_window_ms
}

/// The tiers the sensor link is run with: requests of at most 200 bytes need
/// 95% completion, at most 300 bytes 85%, larger ones 75%; a stall is
/// declared after 5 ms without fill progress and 3 ms without fresh
/// transport bytes.
pub open spec fn standard_policy() -> StallPolicy {
    StallPolicy {
        small_max: 200,
        small_permille: 950,
        medium_max: 300,
        medium_permille: 850,
        large_permille: 750,
        stall_window_ms: 5,
        recent_window_ms: 3,
    }
}

impl StallPolicy {
    /// The standard tiers and windows of the sensor link.
    pub fn standard() -> (r: StallPolicy)
        ensures
            r == standard_policy(),
    {
        StallPolicy {
            small_max: 200,
            small_permille: 950,
            medium_max: 300,
            medium_permille: 850,
            large_permille: 750,
            stall_window_ms: 5,
            recent_window_ms: 3,
        }
    }

    /// The completion threshold for a request of `size` bytes, in
    /// thousandths.
    pub fn min_completion_permille(&self, size: usize) -> (r: u32)
        ensures
            r as int == policy_permille(*self, size as int),
    {
        if size <= self.small_max {
            self.small_permille
        } else if size <= self.medium_max {
            self.medium_permille
        } else {
            self.large_permille
        }
    }

    /// Whether a stalled fill may be accepted under this policy.
    pub fn accepts(&self, filled: usize, goal: usize, stalled_ms: u64, quiet_ms: u64) -> (r: bool)
        ensures
            r == policy_accepts(*self, filled as int, goal as int, stalled_ms as int, quiet_ms as int),
    {
        let permille = self.min_completion_permille(goal);
        let gf: u128 = goal as u128;
        let pf: u128 = permille as u128;
        proof {
            assert(gf * pf <= 0xFFFF_FFFF_FFFF_FFFFu128 * 0xFFFF_FFFFu128) by (nonlinear_arith)
                requires
                    gf <= 0xFFFF_FFFF_FFFF_FFFFu128,
                    pf <= 0xFFFF_FFFFu128,
            ;
        }
        (filled as u128) * 1000 >= gf * pf && stalled_ms > self.stall_window_ms && quiet_ms
            > self.recent_window_ms
    }
}

/// How many FIFO bytes a drain into a region moves: all it lacks, or all the
/// FIFO holds, whichever is smaller.
pub open spec fn drain_amount(region_len: int, goal: int, fifo_len: int) -> int {
    if goal - region_len <= fifo_len {
        goal - region_len
    } else {
        fifo_len
    }
}

/// One in-progress fill of a fixed-size byte region, with the timestamps the
/// stall policy is judged against. All times are milliseconds on the
/// caller's monotonic clock.
pub struct FillState {
    /// The bytes accepted so far, in arrival order.
    pub region: Vec<u8>,
    /// The requested region size.
    pub goal: usize,
    /// When this fill began.
    pub start_ms: u64,
    /// The hard deadline, measured from `start_ms`.
    pub timeout_ms: u64,
    /// When the fill count last advanced.
    pub last_progress_ms: u64,
    /// When the transport last delivered bytes.
    pub last_data_ms: u64,
    /// The stall policy in force.
    pub policy: StallPolicy,
}

/// A fill holds at most its requested size and its timestamps never precede
/// its start.
pub open spec fn fill_wf(f: FillState) -> bool {
    &&& f.region@.len() <= f.goal
    &&& f.start_ms <= f.last_progress_ms
    &&& f.start_ms <= f.last_data_ms
}

/// The outcome of one fill step.
#[derive(Debug, Clone, Copy, PartialEq, Eq, Structural)]
pub enum FillStep {
    /// The region is complete.
    Filled,
    /// The region stalled but met the policy; the tail was zero-filled.
    FilledPartial,
    /// The hard deadline passed; the fill is incomplete and to be discarded.
    TimedOut,
    /// More transport bytes are needed; the caller should poll and call
    /// again.
    Poll,
}

impl FillState {
    /// Begin filling a region of `goal` bytes at time `now_ms`, with a hard
    /// deadline of `timeout_ms` from now.
    pub fn new(goal: usize, now_ms: u64, timeout_ms: u64, policy: StallPolicy) -> (r: FillState)
        ensures
            fill_wf(r),
            r.region@ == Seq::<u8>::empty(),
            r.goal == goal,
            r.start_ms == now_ms,
            r.timeout_ms == timeout_ms,
            r.last_progress_ms == now_ms,
            r.last_data_ms == now_ms,
            r.policy == policy,
    {
        FillState {
            region: Vec::new(),
            goal,
            start_ms: now_ms,
            timeout_ms,
            last_progress_ms: now_ms,
            last_data_ms: now_ms,
            policy,
        }
    }

    /// Record that the transport delivered fresh bytes at `now_ms`.
    pub fn note_data(&mut self, now_ms: u64)
        requires
            now_ms >= old(self).start_ms,
        ensures
            *final(self) == (FillState { last_data_ms: now_ms, ..*old(self) }),
    {
        self.last_data_ms = now_ms;
    }

    /// Move bytes from the front of the FIFO into the region until the
    /// region is full or the FIFO is empty.
    #[verifier::loop_isolation(false)]
    fn drain_fifo(&mut self, fifo: &mut VecDeque<u8>)
        requires
            old(self).region@.len() <= old(self).goal,
        ensures
            ({
                let take = drain_amount(
                    old(self).region@.len() as int,
                    old(self).goal as int,
                    old(fifo)@.len() as int,
                );
                &&& final(self).region@ == old(self).region@ + old(fifo)@.subrange(0, take)
                &&& final(fifo)@ == old(fifo)@.subrange(take, old(fifo)@.len() as int)
                &&& final(self).region@.len() <= final(self).goal
                &&& final(self).goal == old(self).goal
                &&& final(self).start_ms == old(self).start_ms
                &&& final(self).timeout_ms == old(self).timeout_ms
                &&& final(self).last_progress_ms == old(self).last_progress_ms
                &&& final(self).last_data_ms == old(self).last_data_ms
                &&& final(self).policy == old(self).policy
            }),
    {
        let ghost orig_r: Seq<u8> = self.region@;
        let ghost orig_f: Seq<u8> = fifo@;
        while self.region.len() < self.goal && fifo.len() != 0
            invariant
                orig_r.len() <= self.region@.len() <= self.goal,
                self.region@.len() - orig_r.len() <= orig_f.len(),
                self.region@ == orig_r + orig_f.subrange(0, self.region@.len() - orig_r.len()),
                fifo@ == orig_f.subrange(self.region@.len() - orig_r.len(), orig_f.len() as int),
                self.goal == old(self).goal,
                self.start_ms == old(self).start_ms,
                self.timeout_ms == old(self).timeout_ms,
                self.last_progress_ms == old(self).last_progress_ms,
                self.last_data_ms == old(self).last_data_ms,
                self.policy == old(self).policy,
            decreases fifo@.len(),
        {
            let ghost before_f: Seq<u8> = fifo@;
            let ghost k: int = self.region@.len() - orig_r.len();
            let b = fifo.pop_front().unwrap();
            self.region.push(b);
            proof {
                assert(b == orig_f[k]);
                assert(self.region@ =~= orig_r + orig_f.subrange(0, k + 1));
                assert(fifo@ =~= orig_f.subrange(k + 1, orig_f.len() as int));
            }
        }
    }

    /// One step of the fill at time `now_ms`: drain the FIFO into the
    /// region, then decide. `Filled` when the region is complete;
    /// `FilledPartial` when a stalled fill met the policy and the tail was
    /// zero-filled; `TimedOut` when the hard deadline has passed; `Poll`
    /// when the caller should pull more transport bytes and step again.
    #[verifier::loop_isolation(false)]
    pub fn step(&mut self, fifo: &mut VecDeque<u8>, now_ms: u64) -> (r: FillStep)
        requires
            fill_wf(*old(self)),
            now_ms >= old(self).last_progress_ms,
            now_ms >= old(self).last_data_ms,
        ensures
            ({
                let take = drain_amount(
                    old(self).region@.len() as int,
                    old(self).goal as int,
                    old(fifo)@.len() as int,
                );
                let region1 = old(self).region@ + old(fifo)@.subrange(0, take);
                let lp = if take > 0 {
                    now_ms as int
                } else {
                    old(self).last_progress_ms as int
                };
                let accept = policy_accepts(
                    old(self).policy,
                    region1.len() as int,
                    old(self).goal as int,
                    now_ms - lp,
                    now_ms - old(self).last_data_ms,
                );
                &&& fill_wf(*final(self))
                &&& final(fifo)@ == old(fifo)@.subrange(take, old(fifo)@.len() as int)
                &&& final(self).goal == old(self).goal
                &&& final(self).start_ms == old(self).start_ms
                &&& final(self).timeout_ms == old(self).timeout_ms
                &&& final(self).last_data_ms == old(self).last_data_ms
                &&& final(self).policy == old(self).policy
                &&& final(self).last_progress_ms as int == lp
                &&& ((r == FillStep::Filled) <==> region1.len() == old(self).goal)
                &&& (r == FillStep::Filled ==> final(self).region@ == region1)
                &&& ((r == FillStep::FilledPartial) <==> (region1.len() < old(self).goal
                    && accept))
                &&& (r == FillStep::FilledPartial ==> final(self).region@ == region1 + Seq::new(
                    (old(self).goal - region1.len()) as nat,
                    |i: int| 0u8,
                ))
                &&& ((r == FillStep::TimedOut) <==> (region1.len() < old(self).goal && !accept
                    && now_ms - old(self).start_ms > old(self).timeout_ms))
                &&& ((r == FillStep::TimedOut || r == FillStep::Poll) ==> final(self).region@
                    == region1)
                &&& ((r == FillStep::Filled || r == FillStep::FilledPartial) ==> final(
                    self).region@.len() == old(self).goal)
            }),
    {
        let filled_before = self.region.len();
        self.drain_fifo(fifo);
        if self.region.len() > filled_before {
            self.last_progress_ms = now_ms;
        }
        if self.region.len() == self.goal {
            return FillStep::Filled;
        }
        let stalled_ms = now_ms - self.last_progress_ms;
        let quiet_ms = now_ms - self.last_data_ms;
        if self.policy.accepts(self.region.len(), self.goal, stalled_ms, quiet_ms) {
            let ghost r1: Seq<u8> = self.region@;
            let ghost lp_val: u64 = self.last_progress_ms;
            while self.region.len() < self.goal
                invariant
                    r1.len() <= self.region@.len() <= self.goal,
                    self.region@.subrange(0, r1.len() as int) == r1,
                    forall|j: int|
                        r1.len() <= j < self.region@.len() ==> self.region@[j] == 0u8,
                    self.goal == old(self).goal,
                    self.start_ms == old(self).start_ms,
                    self.timeout_ms == old(self).timeout_ms,
                    self.last_progress_ms == lp_val,
                    self.last_data_ms == old(self).last_data_ms,
                    self.policy == old(self).policy,
                decreases self.goal - self.region@.len(),
            {
                self.region.push(0u8);
                proof {
                    assert(self.region@.subrange(0, r1.len() as int) =~= r1);
                }
            }
            proof {
                assert(self.region@ =~= r1 + Seq::new(
                    (self.goal - r1.len()) as nat,
                    |i: int| 0u8,
                ));
            }
            return FillStep::FilledPartial;
        }
        if now_ms - self.start_ms > self.timeout_ms {
            return FillStep::TimedOut;
        }
        FillStep::Poll
    }
}

} // verus!
