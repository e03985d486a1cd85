//! The mathematical model of the pacer: a token bucket, a schedule of
//! the next permitted send, and a backoff window that opens after loss.
//!
//! Times are whole nanoseconds in 64 bits. A loss rate is carried in parts
//! per million, so 200000 stands for a loss of 0.2.

use vstd::prelude::*;

verus! {

/// Nanoseconds in a second, times the bits in a byte: the divisor that turns
/// nanoseconds times bits per second into bytes.
pub const NANO_BITS_PER_BYTE_SECOND: u64 = 8000000000;

/// The round-trip time assumed while none has been reported (100 ms).
pub const DEFAULT_RTT_NS: u64 = 100000000;

/// The loss rate that stands for 1.0, in parts per million.
pub const LOSS_ONE: u64 = 1000000;

/// The loss rate above which a send opens a backoff window (10%).
pub const LOSS_BACKOFF_THRESHOLD: u32 = 100000;

/// The configuration of a pacer.
#[derive(Clone, Copy, Debug, PartialEq, Eq, Structural)]
pub struct PepperPacingParams {
    /// Target rate in bits per second; 0 means unlimited.
    pub target_rate_bps: u64,
    /// Maximum burst size in bytes: the capacity of the token bucket.
    pub max_burst_bytes: u64,
    /// Whether a send under loss opens a backoff window.
    pub loss_aware_backoff: bool,
    /// Whether the pacer is in force at all.
    pub enable_pacing: bool,
    /// Minimum time between two sends, in nanoseconds.
    pub min_pacing_interval_ns: u64,
}

/// The state of a pacer, as plain values.
#[derive(Clone, Copy, Debug, PartialEq, Eq, Structural)]
pub struct PacingSnapshot {
    /// The earliest time at which the schedule permits the next send.
    pub next_send_time_ns: u64,
    /// Bytes that may be sent now.
    pub tokens: u64,
    /// When the tokens were last refilled.
    pub last_update_ns: u64,
    /// The latest loss-rate estimate, in parts per million.
    pub loss_rate_ppm: u32,
    /// The latest round-trip estimate in nanoseconds; 0 while none is known.
    pub rtt_ns: u64,
    /// Whether a backoff window is open.
    pub in_backoff: bool,
    /// When the backoff window closes.
    pub backoff_until_ns: u64,
}

/// `x` where it fits in 64 bits, else the largest 64-bit value.
pub open spec fn saturate(x: int) -> u64 {
    if x > u64::MAX {
        u64::MAX
    } else if x < 0 {
        0
    } else {
        x as u64
    }
}

/// The time that has passed from `since` to `now`, and 0 where `now` lies
/// before `since`.
pub open spec fn elapsed_ns(now: u64, since: u64) -> nat {
    if now >= since {
        (now - since) as nat
    } else {
        0
    }
}

/// The state of a pacer created at `now`: a full bucket, no estimates, no
/// backoff, and a send permitted at once.
pub open spec fn initial_state(p: PepperPacingParams, now: u64) -> PacingSnapshot {
    PacingSnapshot {
        next_send_time_ns: now,
        tokens: p.max_burst_bytes,
        last_update_ns: now,
        loss_rate_ppm: 0,
        rtt_ns: 0,
        in_backoff: false,
        backoff_until_ns: 0,
    }
}

/// The bytes that the target rate earns in the time since the last refill.
/// A fraction of a byte is dropped.
pub open spec fn earned_tokens(s: PacingSnapshot, p: PepperPacingParams, now: u64) -> nat {
    (elapsed_ns(now, s.last_update_ns) * p.target_rate_bps / (NANO_BITS_PER_BYTE_SECOND as int)) as nat
}

/// The token count after a refill at `now`: what was there plus what was
/// earned, capped at the burst size.
pub open spec fn refilled_tokens(s: PacingSnapshot, p: PepperPacingParams, now: u64) -> nat {
    let total = s.tokens + earned_tokens(s, p, now);
    if total > p.max_burst_bytes {
        p.max_burst_bytes as nat
    } else {
        total as nat
    }
}

/// Whether an open backoff window forbids a send at `now`.
pub open spec fn backoff_holds(s: PacingSnapshot, now: u64) -> bool {
    s.in_backoff && now < s.backoff_until_ns
}

/// Whether the schedule forbids a send at `now`.
pub open spec fn schedule_holds(s: PacingSnapshot, now: u64) -> bool {
    now < s.next_send_time_ns
}

/// Whether the token bucket forbids a send of `size` bytes at `now`.
pub open spec fn tokens_lack(s: PacingSnapshot, p: PepperPacingParams, size: nat, now: u64) -> bool {
    p.target_rate_bps > 0 && refilled_tokens(s, p, now) < size
}

/// Whether a packet of `size` bytes may be sent at `now`: always where
/// pacing is off, else where none of the three checks forbids it.
pub open spec fn may_send(s: PacingSnapshot, p: PepperPacingParams, size: nat, now: u64) -> bool {
    !p.enable_pacing || (!backoff_holds(s, now) && !schedule_holds(s, now) && !tokens_lack(
        s,
        p,
        size,
        now,
    ))
}

/// The state after the pacer was asked at `now`. Asking changes nothing where
/// pacing is off or the backoff window forbids the send. Otherwise the
/// window is closed, and where the schedule lets the question through to a
/// rate-limited bucket, the bucket is refilled.
pub open spec fn after_check(s: PacingSnapshot, p: PepperPacingParams, now: u64) -> PacingSnapshot {
    if !p.enable_pacing || backoff_holds(s, now) {
        s
    } else if schedule_holds(s, now) || p.target_rate_bps == 0 {
        PacingSnapshot { in_backoff: false, ..s }
    } else {
        PacingSnapshot {
            in_backoff: false,
            tokens: refilled_tokens(s, p, now) as u64,
            last_update_ns: now,
            ..s
        }
    }
}

/// The time that sending `size` bytes takes at the target rate, in
/// nanoseconds; a fraction is dropped.
pub open spec fn transmit_time_ns(p: PepperPacingParams, size: nat) -> nat
    recommends
        p.target_rate_bps > 0,
{
    (size * (NANO_BITS_PER_BYTE_SECOND as int) / (p.target_rate_bps as int)) as nat
}

/// The distance from a send of `size` bytes to the next permitted send: the
/// transmit time at the target rate or the minimum interval, whichever is
/// longer; the minimum interval alone where the rate is unlimited.
pub open spec fn send_interval_ns(p: PepperPacingParams, size: nat) -> nat {
    if p.target_rate_bps > 0 && transmit_time_ns(p, size) > p.min_pacing_interval_ns {
        transmit_time_ns(p, size)
    } else {
        p.min_pacing_interval_ns as nat
    }
}

/// The round-trip time that a backoff is scaled by: the estimate, or the
/// default while none is known.
pub open spec fn effective_rtt_ns(rtt_ns: u64) -> nat {
    if rtt_ns > 0 {
        rtt_ns as nat
    } else {
        DEFAULT_RTT_NS as nat
    }
}

/// The length of a backoff window under a loss rate of `loss_rate_ppm` parts
/// per million and a round-trip estimate of `rtt_ns`: the round-trip time
/// times (1 + 10 × loss rate), a fraction of a nanosecond dropped.
pub open spec fn backoff_duration_ns(loss_rate_ppm: u32, rtt_ns: u64) -> nat {
    (effective_rtt_ns(rtt_ns) * (LOSS_ONE + 10 * loss_rate_ppm) / (LOSS_ONE as int)) as nat
}

/// Whether a send opens a backoff window: loss-aware backoff is on and the
/// loss estimate is above 10%.
pub open spec fn enters_backoff(s: PacingSnapshot, p: PepperPacingParams) -> bool {
    p.loss_aware_backoff && s.loss_rate_ppm > LOSS_BACKOFF_THRESHOLD
}

/// The token count after `size` bytes were sent: that much less, and no less
/// than 0; unchanged where the rate is unlimited.
pub open spec fn spent_tokens(s: PacingSnapshot, p: PepperPacingParams, size: nat) -> u64 {
    if p.target_rate_bps == 0 {
        s.tokens
    } else if s.tokens >= size {
        (s.tokens - size) as u64
    } else {
        0
    }
}

/// The state after `size` bytes were sent at `now`: the tokens are spent,
/// the next send is scheduled, and under loss a backoff window opens. Times
/// that would leave the 64-bit range stay at its end.
pub open spec fn after_send(s: PacingSnapshot, p: PepperPacingParams, size: nat, now: u64) -> PacingSnapshot {
    PacingSnapshot {
        tokens: spent_tokens(s, p, size),
        next_send_time_ns: saturate(now + send_interval_ns(p, size)),
        in_backoff: s.in_backoff || enters_backoff(s, p),
        backoff_until_ns: if enters_backoff(s, p) {
            saturate(now + backoff_duration_ns(s.loss_rate_ppm, s.rtt_ns))
        } else {
            s.backoff_until_ns
        },
        ..s
    }
}

/// The state after new estimates were reported: they replace the old ones
/// and nothing else changes.
pub open spec fn after_metrics(s: PacingSnapshot, loss_rate_ppm: u32, rtt_ns: u64) -> PacingSnapshot {
    PacingSnapshot { loss_rate_ppm, rtt_ns, ..s }
}

/// The bucket invariant: the token count is never above the burst size.
pub open spec fn within_burst(s: PacingSnapshot, p: PepperPacingParams) -> bool {
    s.tokens <= p.max_burst_bytes
}

/// The bucket invariant holds at creation and every operation keeps it. A
/// refill establishes it whatever the state was before.
pub proof fn lemma_tokens_within_burst(
    s: PacingSnapshot,
    p: PepperPacingParams,
    size: nat,
    now: u64,
    loss_rate_ppm: u32,
    rtt_ns: u64,
)
    ensures
        within_burst(initial_state(p, now), p),
        within_burst(s, p) ==> within_burst(after_check(s, p, now), p),
        within_burst(s, p) ==> within_burst(after_send(s, p, size, now), p),
        within_burst(s, p) ==> within_burst(after_metrics(s, loss_rate_ppm, rtt_ns), p),
        refilled_tokens(s, p, now) <= p.max_burst_bytes,
{
}

/// A packet larger than the burst size is never let through by a
/// rate-limited pacer, whatever the state and however much time has passed.
pub proof fn lemma_oversized_never_sent(s: PacingSnapshot, p: PepperPacingParams, size: nat, now: u64)
    requires
        p.enable_pacing,
        p.target_rate_bps > 0,
        size > p.max_burst_bytes,
    ensures
        !may_send(s, p, size, now),
{
}

/// A packet of the full burst size is let through right after creation, and
/// the send empties the bucket: a second packet of that size is refused for
/// as long as the rate has not earned the burst back.
pub proof fn lemma_burst_sent_once(p: PepperPacingParams, created: u64, later: u64)
    requires
        p.enable_pacing,
        p.target_rate_bps > 0,
        p.max_burst_bytes > 0,
        elapsed_ns(later, created) * p.target_rate_bps / (NANO_BITS_PER_BYTE_SECOND as int)
            < p.max_burst_bytes,
    ensures
        may_send(initial_state(p, created), p, p.max_burst_bytes as nat, created),
        after_send(
            after_check(initial_state(p, created), p, created),
            p,
            p.max_burst_bytes as nat,
            created,
        ).tokens == 0,
        !may_send(
            after_send(
                after_check(initial_state(p, created), p, created),
                p,
                p.max_burst_bytes as nat,
                created,
            ),
            p,
            p.max_burst_bytes as nat,
            later,
        ),
{
    assert(0 * p.target_rate_bps == 0) by (nonlinear_arith);
}

/// Minimum spacing: after a send, the pacer refuses every packet that comes
/// sooner than the minimum interval.
pub proof fn lemma_min_spacing(
    s: PacingSnapshot,
    p: PepperPacingParams,
    sent: nat,
    now: u64,
    size: nat,
    later: u64,
)
    requires
        p.enable_pacing,
        later < now + p.min_pacing_interval_ns,
        later < u64::MAX,
    ensures
        !may_send(after_send(s, p, sent, now), p, size, later),
{
}

/// Backoff: a send under a loss estimate above 10%, with loss-aware backoff
/// on, opens a window of the round-trip time times (1 + 10 × loss rate) in
/// which the pacer refuses every packet. Once the window is over, the backoff
/// window forbids nothing any more.
pub proof fn lemma_backoff_window(
    s: PacingSnapshot,
    p: PepperPacingParams,
    sent: nat,
    now: u64,
    size: nat,
    later: u64,
)
    requires
        p.enable_pacing,
        p.loss_aware_backoff,
        s.loss_rate_ppm > LOSS_BACKOFF_THRESHOLD,
    ensures
        after_send(s, p, sent, now).in_backoff,
        after_send(s, p, sent, now).backoff_until_ns == saturate(now + backoff_duration_ns(s.loss_rate_ppm, s.rtt_ns)),
        later < now + backoff_duration_ns(s.loss_rate_ppm, s.rtt_ns) && later < u64::MAX ==> !may_send(
            after_send(s, p, sent, now),
            p,
            size,
            later,
        ),
        later >= now + backoff_duration_ns(s.loss_rate_ppm, s.rtt_ns) ==> !backoff_holds(after_send(s, p, sent, now), later),
{
}

} // verus!
