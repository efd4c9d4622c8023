//! Polling orchestration: the decisions that turn the single-request,
//! single-response session into a rate-limited, timeout-bounded stream of
//! `(cumulative energy, voltage)` pairs.
//!
//! The orchestrator is a pure state machine over an abstract monotonic
//! clock: callers hand it the current time and perform the transport work
//! it asks for. Each tick issues `CumulativeEnergy(Daily)` and then, after
//! that response, `Measure { Input1Voltage, global: true }`; the pair is
//! emitted only when both succeed within the tick. Ticks are spaced by a
//! configured interval, except for an initial number of skip ticks that
//! run back to back, and a request left unanswered past the timeout
//! window is fatal.

use vstd::prelude::*;

use crate::codec::CumulativeDuration;
use crate::codec::ProtocolError;
use crate::codec::Request;
use crate::codec::Response;
use crate::state_codes::MeasurementType;

verus! {

/// Throttle on the start of ticks: a next-allowed deadline plus a count
/// of initial ticks exempted from it.
#[derive(Clone, Copy, Debug, PartialEq, Eq, Structural)]
pub struct RateLimiter {
    /// Spacing enforced between admitted ticks once the skips are spent.
    pub interval: u64,
    /// Ticks still exempt from throttling.
    pub skips_left: u64,
    /// Earliest time the next throttled tick may start.
    pub next_allowed: u64,
}

/// One step of the rate limiter at time `now`: the successor state and
/// whether a tick is admitted.
pub open spec fn limiter_step(s: RateLimiter, now: u64) -> (RateLimiter, bool) {
    if s.skips_left > 0 {
        (
            RateLimiter {
                interval: s.interval,
                skips_left: (s.skips_left - 1) as u64,
                next_allowed: (now + s.interval) as u64,
            },
            true,
        )
    } else if now >= s.next_allowed {
        (
            RateLimiter {
                interval: s.interval,
                skips_left: 0,
                next_allowed: (now + s.interval) as u64,
            },
            true,
        )
    } else {
        (s, false)
    }
}

impl RateLimiter {
    /// A fresh limiter that admits `skips` initial ticks immediately and
    /// thereafter spaces ticks by `interval`.
    pub fn new(interval: u64, skips: u64) -> (r: RateLimiter)
        ensures
            r == (RateLimiter { interval, skips_left: skips, next_allowed: 0 }),
    {
        RateLimiter { interval, skips_left: skips, next_allowed: 0 }
    }

    /// Ask to start a tick at time `now`.
    pub fn try_tick(&mut self, now: u64) -> (allowed: bool)
        requires
            now <= u64::MAX - old(self).interval,
        ensures
            (*final(self), allowed) == limiter_step(*old(self), now),
    {
        if self.skips_left > 0 {
            self.skips_left = self.skips_left - 1;
            self.next_allowed = now + self.interval;
            true
        } else if now >= self.next_allowed {
            self.next_allowed = now + self.interval;
            true
        } else {
            false
        }
    }
}

/// Warm-up law: while skip ticks remain, a tick is admitted at once,
/// whatever the clock reads.
pub proof fn lemma_skip_tick_immediate(s: RateLimiter, now: u64)
    requires
        s.skips_left > 0,
    ensures
        limiter_step(s, now).1,
        limiter_step(s, now).0.skips_left == s.skips_left - 1,
{
}

/// Throttling law: a tick admitted after the skip ticks are spent comes
/// at least the configured interval after the previously admitted tick,
/// whichever kind that one was.
pub proof fn lemma_throttled_spacing(s: RateLimiter, t1: u64, t2: u64)
    requires
        t1 + s.interval <= u64::MAX,
        limiter_step(s, t1).1,
        limiter_step(s, t1).0.skips_left == 0,
        limiter_step(limiter_step(s, t1).0, t2).1,
    ensures
        t2 >= t1 + s.interval,
{
}

/// Where the orchestrator stands within the current tick.
#[derive(Clone, Copy, Debug, PartialEq, Eq, Structural)]
pub enum PollState {
    /// No request outstanding; the next tick may start.
    Idle,
    /// `CumulativeEnergy(Daily)` sent, response owed.
    AwaitingEnergy,
    /// Energy received; `Measure { Input1Voltage, global: true }` sent.
    AwaitingVoltage { energy: u32 },
    /// A fatal failure or timeout ended the stream.
    Failed,
}

/// What the caller must do after handing the orchestrator a response.
#[derive(Clone, Copy, Debug, PartialEq, Eq, Structural)]
pub enum TickOutcome {
    /// Send this request next; a response is now owed.
    SendNext(Request),
    /// Both calls of the tick succeeded: emit this measurement pair.
    /// `voltage_bits` holds the measured value as big-endian IEEE-754
    /// bits, exactly as decoded from the wire.
    Emit { energy: u32, voltage_bits: u32 },
    /// The device answered with an unusable variant; the tick produced
    /// nothing and the orchestrator is idle again.
    TickAbandoned,
    /// Protocol desynchronization: the stream must terminate.
    Fatal(ProtocolError),
}

/// One step of the per-tick state machine on receiving a response: the
/// successor state and the action the caller must take.
pub open spec fn poll_step(state: PollState, resp: Response) -> (PollState, TickOutcome) {
    match state {
        PollState::AwaitingEnergy => match resp {
            Response::CumulativeEnergy { value, .. } => (
                PollState::AwaitingVoltage { energy: value },
                TickOutcome::SendNext(
                    Request::Measure { type_: MeasurementType::Input1Voltage, global: true },
                ),
            ),
            _ => (PollState::Idle, TickOutcome::TickAbandoned),
        },
        PollState::AwaitingVoltage { energy } => match resp {
            Response::Measure { val_bits, .. } => (
                PollState::Idle,
                TickOutcome::Emit { energy, voltage_bits: val_bits },
            ),
            _ => (PollState::Idle, TickOutcome::TickAbandoned),
        },
        _ => (PollState::Failed, TickOutcome::Fatal(ProtocolError::UnexpectedResponse)),
    }
}

/// Whether the outstanding deadline, if any, has passed at time `now`.
pub open spec fn deadline_expired(deadline: Option<u64>, now: u64) -> bool {
    deadline matches Some(d) && now >= d
}

/// Timeout law: a request sent at time `t` arms the deadline
/// `t + window`; while no response clears it, it reads expired at every
/// time from `t + window` on, and never before.
pub proof fn lemma_timeout_bound(t: u64, window: u64, now: u64)
    requires
        t + window <= u64::MAX,
    ensures
        deadline_expired(Some((t + window) as u64), now) <==> now >= t + window,
{
}

/// The polling orchestrator: rate-limit state, per-tick state and the
/// timeout deadline of the outstanding request, if any.
pub struct Orchestrator {
    /// Throttle on tick starts.
    pub limiter: RateLimiter,
    /// Where the current tick stands.
    pub state: PollState,
    /// Time allowed between sending a request and its response.
    pub window: u64,
    /// Deadline of the outstanding request; armed exactly while one is
    /// owed a response.
    pub deadline: Option<u64>,
}

impl Orchestrator {
    /// A fresh orchestrator. `interval` spaces ticks, the first `skips`
    /// ticks run unthrottled, and a request unanswered for `window` is a
    /// fatal timeout.
    pub fn new(interval: u64, skips: u64, window: u64) -> (r: Orchestrator)
        ensures
            r.limiter == (RateLimiter { interval, skips_left: skips, next_allowed: 0 }),
            r.state == PollState::Idle,
            r.window == window,
            r.deadline is None,
    {
        Orchestrator {
            limiter: RateLimiter::new(interval, skips),
            state: PollState::Idle,
            window,
            deadline: None,
        }
    }

    /// Try to start a tick at time `now`. When the orchestrator is idle
    /// and the rate limiter admits the tick, the first request of the
    /// fixed two-call sequence is returned for sending and its timeout
    /// deadline is armed; otherwise nothing is to be sent.
    pub fn start_tick(&mut self, now: u64) -> (r: Option<Request>)
        requires
            now <= u64::MAX - old(self).limiter.interval,
            now <= u64::MAX - old(self).window,
        ensures
            final(self).window == old(self).window,
            old(self).state != PollState::Idle ==> *final(self) == *old(self) && r is None,
            old(self).state == PollState::Idle ==> {
                let (lim2, allowed) = limiter_step(old(self).limiter, now);
                &&& final(self).limiter == lim2
                &&& allowed ==> {
                    &&& r == Some(Request::CumulativeEnergy(CumulativeDuration::Daily))
                    &&& final(self).state == PollState::AwaitingEnergy
                    &&& final(self).deadline == Some((now + old(self).window) as u64)
                }
                &&& !allowed ==> {
                    &&& r is None
                    &&& final(self).state == PollState::Idle
                    &&& final(self).deadline == old(self).deadline
                }
            },
    {
        match self.state {
            PollState::Idle => {
                if self.limiter.try_tick(now) {
                    self.state = PollState::AwaitingEnergy;
                    self.deadline = Some(now + self.window);
                    Some(Request::CumulativeEnergy(CumulativeDuration::Daily))
                } else {
                    None
                }
            },
            _ => None,
        }
    }

    /// Hand the orchestrator the response to the outstanding request,
    /// received at time `now`. Re-arms the timeout deadline when another
    /// request is to be sent and clears it otherwise.
    pub fn handle_response(&mut self, now: u64, resp: Response) -> (r: TickOutcome)
        requires
            now <= u64::MAX - old(self).window,
        ensures
            final(self).window == old(self).window,
            final(self).limiter == old(self).limiter,
            ({
                let (s2, out) = poll_step(old(self).state, resp);
                &&& final(self).state == s2
                &&& r == out
                &&& (out matches TickOutcome::SendNext(_)) ==> final(self).deadline == Some(
                    (now + old(self).window) as u64,
                )
                &&& !(out matches TickOutcome::SendNext(_)) ==> final(self).deadline is None
            }),
    {
        match self.state {
            PollState::AwaitingEnergy => match resp {
                Response::CumulativeEnergy { value, .. } => {
                    self.state = PollState::AwaitingVoltage { energy: value };
                    self.deadline = Some(now + self.window);
                    TickOutcome::SendNext(
                        Request::Measure { type_: MeasurementType::Input1Voltage, global: true },
                    )
                },
                _ => {
                    self.state = PollState::Idle;
                    self.deadline = None;
                    TickOutcome::TickAbandoned
                },
            },
            PollState::AwaitingVoltage { energy } => match resp {
                Response::Measure { val_bits, .. } => {
                    self.state = PollState::Idle;
                    self.deadline = None;
                    TickOutcome::Emit { energy, voltage_bits: val_bits }
                },
                _ => {
                    self.state = PollState::Idle;
                    self.deadline = None;
                    TickOutcome::TickAbandoned
                },
            },
            _ => {
                self.state = PollState::Failed;
                self.deadline = None;
                TickOutcome::Fatal(ProtocolError::UnexpectedResponse)
            },
        }
    }

    /// Whether the outstanding request has gone unanswered past its
    /// deadline at time `now`. A timeout is fatal: the orchestrator moves
    /// to `Failed` and the stream terminates.
    pub fn timed_out(&mut self, now: u64) -> (r: bool)
        ensures
            r == deadline_expired(old(self).deadline, now),
            final(self).window == old(self).window,
            final(self).limiter == old(self).limiter,
            r ==> final(self).state == PollState::Failed && final(self).deadline is None,
            !r ==> *final(self) == *old(self),
    {
        match self.deadline {
            Some(d) => {
                if now >= d {
                    self.state = PollState::Failed;
                    self.deadline = None;
                    true
                } else {
                    false
                }
            },
            None => false,
        }
    }
}

/// The timeout window: the poll interval times the configured multiplier,
/// or `None` where the product does not fit in 64 bits.
pub fn timeout_window(interval: u64, timeout_mul: u32) -> (r: Option<u64>)
    ensures
        match r {
            Some(w) => w == interval * (timeout_mul as u64),
            None => interval * (timeout_mul as u64) > u64::MAX,
        },
{
    interval.checked_mul(timeout_mul as u64)
}

} // verus!
