//! Per-round timing: the current round, its armed deadline, and the
//! exponential backoff that stretches the deadline while rounds keep timing
//! out.

use vstd::prelude::*;

verus! {

/// The number of backoff steps after which the interval stops growing.
/// Six steps multiply the base interval by `1.5^6`, about elevenfold.
pub const MAX_BACKOFF_EXPONENT: u64 = 6;

/// The timeout interval after `k` consecutive timeouts without progress:
/// `base * 1.5^min(k, 6)`, taken over the integers as
/// `base * 3^min(k, 6) / 2^min(k, 6)`.
pub open spec fn spec_backoff_ms(base: u64, k: nat) -> int {
    if k == 0 {
        base as int
    } else if k == 1 {
        base * 3 / 2
    } else if k == 2 {
        base * 9 / 4
    } else if k == 3 {
        base * 27 / 8
    } else if k == 4 {
        base * 81 / 16
    } else if k == 5 {
        base * 243 / 32
    } else {
        base * 729 / 64
    }
}

/// A base interval this small cannot overflow when multiplied by `3^6`.
pub open spec fn base_in_range(base: u64) -> bool {
    base <= u64::MAX as int / 729
}

/// Clocks handed in from outside stay below this bound, so that adding the
/// largest backoff interval to a reading cannot overflow.
pub open spec fn now_in_range(now_ms: u64) -> bool {
    now_ms <= u64::MAX as int / 2
}

/// Once the interval stops growing, further timeouts change nothing: the
/// interval for every `k >= 6` equals the interval at six.
pub proof fn lemma_backoff_caps(base: u64, k: nat)
    requires
        k >= MAX_BACKOFF_EXPONENT,
    ensures
        spec_backoff_ms(base, k) == spec_backoff_ms(base, MAX_BACKOFF_EXPONENT as nat),
{
}

/// The timeout interval for `k` consecutive timeouts, in milliseconds.
pub fn backoff_interval_ms(base: u64, k: u64) -> (r: u64)
    requires
        base_in_range(base),
    ensures
        r == spec_backoff_ms(base, k as nat),
        r <= u64::MAX / 64,
{
    let kk = if k < MAX_BACKOFF_EXPONENT {
        k
    } else {
        MAX_BACKOFF_EXPONENT
    };
    if kk == 0 {
        base
    } else if kk == 1 {
        base * 3 / 2
    } else if kk == 2 {
        base * 9 / 4
    } else if kk == 3 {
        base * 27 / 8
    } else if kk == 4 {
        base * 81 / 16
    } else if kk == 5 {
        base * 243 / 32
    } else {
        base * 729 / 64
    }
}

/// What a local timeout tick led to.
#[derive(Clone, Copy, PartialEq, Eq, Structural, Debug)]
pub enum TimeoutOutcome {
    /// The tick named a round that is no longer current; it is discarded.
    Stale,
    /// The current round timed out: a timeout vote for it is to be
    /// broadcast, and the next deadline has been armed further out.
    BroadcastTimeoutVote { round: u64 },
}

/// The current round, its deadline, and the consecutive-timeout depth that
/// drives the backoff.
#[derive(Clone, Copy, PartialEq, Eq, Structural, Debug)]
pub struct RoundState {
    pub base_timeout_ms: u64,
    pub round: u64,
    pub timeouts: u64,
    pub deadline_ms: u64,
}

impl RoundState {
    pub open spec fn wf(self) -> bool {
        base_in_range(self.base_timeout_ms)
    }

    /// Enters `round` with no timeouts yet counted and the deadline one base
    /// interval out.
    pub fn new(base_timeout_ms: u64, round: u64, now_ms: u64) -> (r: RoundState)
        requires
            base_in_range(base_timeout_ms),
            now_in_range(now_ms),
        ensures
            r.wf(),
            r.base_timeout_ms == base_timeout_ms,
            r.round == round,
            r.timeouts == 0,
            r.deadline_ms == now_ms + spec_backoff_ms(base_timeout_ms, 0),
    {
        let interval = backoff_interval_ms(base_timeout_ms, 0);
        RoundState { base_timeout_ms, round, timeouts: 0, deadline_ms: now_ms + interval }
    }

    /// Progress: a later round was certified.  The timeout depth resets and
    /// the new round's deadline is one base interval out.
    pub fn advance_round(&mut self, new_round: u64, now_ms: u64)
        requires
            old(self).wf(),
            new_round > old(self).round,
            now_in_range(now_ms),
        ensures
            final(self).wf(),
            final(self).base_timeout_ms == old(self).base_timeout_ms,
            final(self).round == new_round,
            final(self).timeouts == 0,
            final(self).deadline_ms == now_ms + spec_backoff_ms(old(self).base_timeout_ms, 0),
    {
        let interval = backoff_interval_ms(self.base_timeout_ms, 0);
        self.round = new_round;
        self.timeouts = 0;
        self.deadline_ms = now_ms + interval;
    }

    /// A timeout tick for `round`.  A stale round is discarded; for the
    /// current round the consecutive-timeout depth grows by one and the next
    /// deadline is the backed-off interval out from `now_ms`.
    pub fn process_local_timeout(&mut self, round: u64, now_ms: u64) -> (r: TimeoutOutcome)
        requires
            old(self).wf(),
            now_in_range(now_ms),
        ensures
            final(self).wf(),
            final(self).base_timeout_ms == old(self).base_timeout_ms,
            final(self).round == old(self).round,
            round != old(self).round ==> r == TimeoutOutcome::Stale && *final(self) == *old(self),
            round == old(self).round ==> {
                &&& r == (TimeoutOutcome::BroadcastTimeoutVote { round })
                &&& final(self).timeouts == if old(self).timeouts < u64::MAX {
                    old(self).timeouts + 1
                } else {
                    u64::MAX as int
                }
                &&& final(self).deadline_ms == now_ms + spec_backoff_ms(
                    old(self).base_timeout_ms,
                    final(self).timeouts as nat,
                )
            },
    {
        if round != self.round {
            return TimeoutOutcome::Stale;
        }
        if self.timeouts < u64::MAX {
            self.timeouts = self.timeouts + 1;
        }
        let interval = backoff_interval_ms(self.base_timeout_ms, self.timeouts);
        self.deadline_ms = now_ms + interval;
        TimeoutOutcome::BroadcastTimeoutVote { round }
    }
}

} // verus!
