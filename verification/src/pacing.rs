//! The pacer: decides when a packet may be sent, and takes note of
//! what was sent and of the loss and round-trip estimates.

use vstd::prelude::*;
use crate::clock::nanos_since_epoch;
use crate::clock::timestamp_ns;
use crate::pacing_model::after_check;
use crate::pacing_model::after_metrics;
use crate::pacing_model::after_send;
use crate::pacing_model::backoff_duration_ns;
use crate::pacing_model::initial_state;
use crate::pacing_model::may_send;
use crate::pacing_model::saturate;
use crate::pacing_model::send_interval_ns;
use crate::pacing_model::within_burst;
use crate::pacing_model::PacingSnapshot;
use crate::pacing_model::PepperPacingParams;
use crate::pacing_model::DEFAULT_RTT_NS;
use crate::pacing_model::LOSS_BACKOFF_THRESHOLD;
use crate::pacing_model::LOSS_ONE;
use crate::pacing_model::NANO_BITS_PER_BYTE_SECOND;

verus! {

/// The state of one pacer.
pub struct PepperPacingState {
    next_send_time_ns: u64,
    tokens: u64,
    last_update_ns: u64,
    loss_rate_ppm: u32,
    rtt_ns: u64,
    in_backoff: bool,
    backoff_until_ns: u64,
}

impl View for PepperPacingState {
    type V = PacingSnapshot;

    closed spec fn view(&self) -> PacingSnapshot {
        PacingSnapshot {
            next_send_time_ns: self.next_send_time_ns,
            tokens: self.tokens,
            last_update_ns: self.last_update_ns,
            loss_rate_ppm: self.loss_rate_ppm,
            rtt_ns: self.rtt_ns,
            in_backoff: self.in_backoff,
            backoff_until_ns: self.backoff_until_ns,
        }
    }
}

/// The product of two 64-bit values fits in 128 bits.
proof fn lemma_product_fits(a: int, b: int)
    requires
        0 <= a <= u64::MAX,
        0 <= b <= u64::MAX,
    ensures
        0 <= a * b <= u128::MAX,
{
    assert(0 <= a * b <= 0xffff_ffff_ffff_ffff * 0xffff_ffff_ffff_ffff) by (nonlinear_arith)
        requires
            0 <= a <= 0xffff_ffff_ffff_ffff,
            0 <= b <= 0xffff_ffff_ffff_ffff,
    ;
}

/// `base + extra`, kept at the end of the 64-bit range where it would leave
/// it.
fn saturating_sum(base: u64, extra: u128) -> (r: u64)
    ensures
        r == saturate(base + extra),
{
    let room: u64 = u64::MAX - base;
    if extra > room as u128 {
        u64::MAX
    } else {
        base + extra as u64
    }
}

/// The distance, in nanoseconds, that a send of `packet_size` bytes puts
/// between itself and the next permitted send.
pub fn send_interval(params: &PepperPacingParams, packet_size: usize) -> (interval: u128)
    ensures
        interval == send_interval_ns(*params, packet_size as nat),
{
    let floor: u128 = params.min_pacing_interval_ns as u128;
    if params.target_rate_bps > 0 {
        proof {
            lemma_product_fits(packet_size as int, NANO_BITS_PER_BYTE_SECOND as int);
        }
        let bits_ns: u128 = packet_size as u128 * NANO_BITS_PER_BYTE_SECOND as u128;
        let transmit: u128 = bits_ns / params.target_rate_bps as u128;
        if transmit > floor {
            transmit
        } else {
            floor
        }
    } else {
        floor
    }
}

/// The length, in nanoseconds, of the backoff window that a send opens under
/// a loss rate of `loss_rate_ppm` parts per million and a round-trip
/// estimate of `rtt_ns` (0: none known).
pub fn backoff_duration(loss_rate_ppm: u32, rtt_ns: u64) -> (duration: u128)
    ensures
        duration == backoff_duration_ns(loss_rate_ppm, rtt_ns),
{
    let rtt: u64 = if rtt_ns > 0 {
        rtt_ns
    } else {
        DEFAULT_RTT_NS
    };
    let factor: u64 = LOSS_ONE + 10 * (loss_rate_ppm as u64);
    proof {
        lemma_product_fits(rtt as int, factor as int);
    }
    (rtt as u128 * factor as u128) / (LOSS_ONE as u128)
}

impl PepperPacingState {
    /// Creates the state of a pacer that starts now, by the system clock: the
    /// bucket is full, nothing is estimated, and a send is permitted at
    /// once.
    pub fn new(params: &PepperPacingParams) -> (state: PepperPacingState)
        ensures
            state@ == initial_state(*params, state@.last_update_ns),
            within_burst(state@, *params),
    {
        PepperPacingState::starting_at(params, get_time_ns())
    }

    /// Creates the state of a pacer that starts at `now_ns`.
    pub fn starting_at(params: &PepperPacingParams, now_ns: u64) -> (state: PepperPacingState)
        ensures
            state@ == initial_state(*params, now_ns),
            within_burst(state@, *params),
    {
        PepperPacingState {
            next_send_time_ns: now_ns,
            tokens: params.max_burst_bytes,
            last_update_ns: now_ns,
            loss_rate_ppm: 0,
            rtt_ns: 0,
            in_backoff: false,
            backoff_until_ns: 0,
        }
    }

    /// The state as plain values, for a reader that must not touch the pacer
    /// itself.
    pub fn snapshot(&self) -> (s: PacingSnapshot)
        ensures
            s == self@,
    {
        PacingSnapshot {
            next_send_time_ns: self.next_send_time_ns,
            tokens: self.tokens,
            last_update_ns: self.last_update_ns,
            loss_rate_ppm: self.loss_rate_ppm,
            rtt_ns: self.rtt_ns,
            in_backoff: self.in_backoff,
            backoff_until_ns: self.backoff_until_ns,
        }
    }
}

/// Asks the pacer whether a packet of `packet_size` bytes may be sent at
/// `current_time_ns`.
///
/// With pacing off the answer is always yes and nothing changes. Otherwise
/// the answer is no while a backoff window is open, no before the next
/// permitted send time, and, with a target rate, no while the refilled
/// bucket holds fewer than `packet_size` bytes.
pub fn can_send(
    state: &mut PepperPacingState,
    params: &PepperPacingParams,
    packet_size: usize,
    current_time_ns: u64,
) -> (ok: bool)
    ensures
        ok == may_send(old(state)@, *params, packet_size as nat, current_time_ns),
        final(state)@ == after_check(old(state)@, *params, current_time_ns),
        within_burst(old(state)@, *params) ==> within_burst(final(state)@, *params),
        params.enable_pacing && params.target_rate_bps > 0 && packet_size > params.max_burst_bytes
            ==> !ok,
{
    if !params.enable_pacing {
        return true;
    }
    if state.in_backoff && current_time_ns < state.backoff_until_ns {
        return false;
    }
    state.in_backoff = false;
    if current_time_ns < state.next_send_time_ns {
        return false;
    }
    if params.target_rate_bps > 0 {
        let elapsed: u64 = if current_time_ns >= state.last_update_ns {
            current_time_ns - state.last_update_ns
        } else {
            0
        };
        proof {
            lemma_product_fits(elapsed as int, params.target_rate_bps as int);
        }
        let bits_ns: u128 = elapsed as u128 * params.target_rate_bps as u128;
        let earned: u128 = bits_ns / NANO_BITS_PER_BYTE_SECOND as u128;
        let room: u64 = if state.tokens <= params.max_burst_bytes {
            params.max_burst_bytes - state.tokens
        } else {
            0
        };
        state.tokens = if earned >= room as u128 {
            params.max_burst_bytes
        } else {
            state.tokens + earned as u64
        };
        state.last_update_ns = current_time_ns;
        if state.tokens < packet_size as u64 {
            return false;
        }
    }
    true
}

/// Takes note that `packet_size` bytes were sent at `current_time_ns`:
/// spends the tokens, schedules the next permitted send, and opens a backoff
/// window where loss-aware backoff is on and the loss estimate is above 10%.
pub fn update_after_send(
    state: &mut PepperPacingState,
    params: &PepperPacingParams,
    packet_size: usize,
    current_time_ns: u64,
)
    ensures
        final(state)@ == after_send(old(state)@, *params, packet_size as nat, current_time_ns),
        within_burst(old(state)@, *params) ==> within_burst(final(state)@, *params),
{
    if params.target_rate_bps > 0 {
        if state.tokens >= packet_size as u64 {
            state.tokens = state.tokens - packet_size as u64;
        } else {
            state.tokens = 0;
        }
    }
    state.next_send_time_ns = saturating_sum(current_time_ns, send_interval(params, packet_size));
    if params.loss_aware_backoff && state.loss_rate_ppm > LOSS_BACKOFF_THRESHOLD {
        let duration: u128 = backoff_duration(state.loss_rate_ppm, state.rtt_ns);
        state.backoff_until_ns = saturating_sum(current_time_ns, duration);
        state.in_backoff = true;
    }
}

/// Replaces the loss-rate estimate (in parts per million) and the round-trip
/// estimate (in nanoseconds). Nothing else changes: a backoff window opens
/// only with the next send.
pub fn update_metrics(state: &mut PepperPacingState, loss_rate_ppm: u32, rtt_ns: u64)
    ensures
        final(state)@ == after_metrics(old(state)@, loss_rate_ppm, rtt_ns),
{
    state.loss_rate_ppm = loss_rate_ppm;
    state.rtt_ns = rtt_ns;
}

/// The current time as a 64-bit nanosecond timestamp: the low 64 bits of the
/// nanoseconds since the epoch, and 0 where the clock stands before it.
pub fn get_time_ns() -> (t: u64) {
    let reading = nanos_since_epoch();
    timestamp_ns(reading)
}

} // verus!
