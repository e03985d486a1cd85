use pepper_shaper::pacing::backoff_duration;
use pepper_shaper::pacing::can_send;
use pepper_shaper::pacing::get_time_ns;
use pepper_shaper::pacing::send_interval;
use pepper_shaper::pacing::update_after_send;
use pepper_shaper::pacing::update_metrics;
use pepper_shaper::pacing::PepperPacingState;
use pepper_shaper::pacing_model::PepperPacingParams;

fn params(rate: u64, burst: u64, backoff: bool, min_interval: u64) -> PepperPacingParams {
    PepperPacingParams {
        target_rate_bps: rate,
        max_burst_bytes: burst,
        loss_aware_backoff: backoff,
        enable_pacing: true,
        min_pacing_interval_ns: min_interval,
    }
}

const T0: u64 = 1_000_000_000_000;

#[test]
fn starting_state_has_full_bucket_and_no_backoff() {
    let p = params(8_000_000, 1500, true, 1000);
    let s = PepperPacingState::starting_at(&p, T0).snapshot();
    assert_eq!(s.tokens, 1500);
    assert_eq!(s.next_send_time_ns, T0);
    assert_eq!(s.last_update_ns, T0);
    assert_eq!(s.loss_rate_ppm, 0);
    assert_eq!(s.rtt_ns, 0);
    assert!(!s.in_backoff);
    assert_eq!(s.backoff_until_ns, 0);
}

#[test]
fn new_state_starts_at_the_clock() {
    let p = params(8_000_000, 1500, true, 1000);
    let before = get_time_ns();
    let s = PepperPacingState::new(&p).snapshot();
    let after = get_time_ns();
    assert_eq!(s.tokens, 1500);
    assert_eq!(s.next_send_time_ns, s.last_update_ns);
    assert!(before <= s.last_update_ns && s.last_update_ns <= after);
    assert!(!s.in_backoff);
}

#[test]
fn clock_reads_a_time_after_2020() {
    let now = get_time_ns();
    assert!(now > 1_577_836_800_000_000_000);
}

#[test]
fn disabled_pacing_always_permits_and_changes_nothing() {
    let mut p = params(8, 1, true, 1_000_000);
    p.enable_pacing = false;
    let mut s = PepperPacingState::starting_at(&p, T0);
    update_metrics(&mut s, 900_000, 50_000_000);
    update_after_send(&mut s, &p, 1000, T0);
    let before = s.snapshot();
    assert!(before.in_backoff);
    assert!(can_send(&mut s, &p, 1_000_000, T0));
    assert!(can_send(&mut s, &p, 1_000_000, 0));
    assert_eq!(s.snapshot(), before);
}

#[test]
fn burst_is_sent_exactly_once() {
    let p = params(8_000_000, 1500, false, 0);
    let mut s = PepperPacingState::starting_at(&p, T0);
    assert!(can_send(&mut s, &p, 1500, T0));
    update_after_send(&mut s, &p, 1500, T0);
    assert_eq!(s.snapshot().tokens, 0);
    assert!(!can_send(&mut s, &p, 1500, T0));
}

#[test]
fn burst_is_refused_until_earned_back() {
    // 8 Gbit/s earns one byte per nanosecond, so the schedule clears after
    // 1500 ns and the bucket is full again at the same moment.
    let p = params(8_000_000_000, 1500, false, 0);
    let mut s = PepperPacingState::starting_at(&p, T0);
    assert!(can_send(&mut s, &p, 1500, T0));
    update_after_send(&mut s, &p, 1500, T0);
    assert_eq!(s.snapshot().next_send_time_ns, T0 + 1500);
    assert!(!can_send(&mut s, &p, 1500, T0 + 1499));
    assert!(can_send(&mut s, &p, 1500, T0 + 1500));
}

#[test]
fn oversized_packet_never_passes() {
    let p = params(8_000_000, 1500, false, 0);
    let mut s = PepperPacingState::starting_at(&p, T0);
    assert!(!can_send(&mut s, &p, 1501, T0));
    assert!(!can_send(&mut s, &p, 1501, T0 + 1_000_000_000));
    assert!(!can_send(&mut s, &p, 1501, u64::MAX));
    assert!(!can_send(&mut s, &p, usize::MAX, u64::MAX));
    assert!(can_send(&mut s, &p, 1500, u64::MAX));
}

#[test]
fn refill_drops_fractions_and_caps_at_burst() {
    // 8 Mbit/s earns one byte per microsecond.
    let p = params(8_000_000, 100, false, 0);
    let mut s = PepperPacingState::starting_at(&p, T0);
    assert!(can_send(&mut s, &p, 100, T0));
    update_after_send(&mut s, &p, 100, T0);
    let next = s.snapshot().next_send_time_ns;
    assert_eq!(next, T0 + 100_000);
    // 100.999 microseconds later: 100 bytes earned, the fraction is lost.
    assert!(can_send(&mut s, &p, 100, T0 + 100_999));
    assert_eq!(s.snapshot().tokens, 100);
    assert_eq!(s.snapshot().last_update_ns, T0 + 100_999);
    update_after_send(&mut s, &p, 60, T0 + 100_999);
    assert_eq!(s.snapshot().tokens, 40);
    assert_eq!(s.snapshot().next_send_time_ns, T0 + 100_999 + 60_000);
    // 60.5 microseconds later: 40 + 60 bytes.
    assert!(can_send(&mut s, &p, 100, T0 + 100_999 + 60_500));
    assert_eq!(s.snapshot().tokens, 100);
    // A long pause earns no more than the burst.
    assert!(!can_send(&mut s, &p, 101, T0 + 1_000_000_000_000));
    assert_eq!(s.snapshot().tokens, 100);
}

#[test]
fn failed_token_check_still_refills() {
    let p = params(8_000_000, 100, false, 0);
    let mut s = PepperPacingState::starting_at(&p, T0);
    update_after_send(&mut s, &p, 100, T0);
    assert_eq!(s.snapshot().tokens, 0);
    assert!(!can_send(&mut s, &p, 100, T0 + 100_000 - 1));
    assert_eq!(s.snapshot().tokens, 0);
    assert_eq!(s.snapshot().last_update_ns, T0);
    update_after_send(&mut s, &p, 0, T0);
    assert_eq!(s.snapshot().next_send_time_ns, T0);
    assert!(!can_send(&mut s, &p, 100, T0 + 30_000));
    assert_eq!(s.snapshot().tokens, 30);
    assert_eq!(s.snapshot().last_update_ns, T0 + 30_000);
}

#[test]
fn time_that_runs_backwards_earns_nothing() {
    let p = params(8_000_000, 100, false, 0);
    let mut s = PepperPacingState::starting_at(&p, T0);
    update_after_send(&mut s, &p, 100, T0);
    update_after_send(&mut s, &p, 0, 0);
    assert_eq!(s.snapshot().next_send_time_ns, 0);
    assert!(!can_send(&mut s, &p, 1, T0 - 5000));
    assert_eq!(s.snapshot().tokens, 0);
    assert_eq!(s.snapshot().last_update_ns, T0 - 5000);
}

#[test]
fn send_spends_tokens_and_floors_at_zero() {
    let p = params(8_000_000, 100, false, 0);
    let mut s = PepperPacingState::starting_at(&p, T0);
    update_after_send(&mut s, &p, 30, T0);
    assert_eq!(s.snapshot().tokens, 70);
    update_after_send(&mut s, &p, 500, T0);
    assert_eq!(s.snapshot().tokens, 0);
}

#[test]
fn unlimited_rate_leaves_tokens_alone() {
    let p = params(0, 100, false, 1000);
    let mut s = PepperPacingState::starting_at(&p, T0);
    assert!(can_send(&mut s, &p, 1_000_000, T0));
    update_after_send(&mut s, &p, 1_000_000, T0);
    assert_eq!(s.snapshot().tokens, 100);
    assert_eq!(s.snapshot().next_send_time_ns, T0 + 1000);
}

#[test]
fn minimum_spacing_refuses_second_send() {
    let p = params(0, 100, false, 1000);
    let mut s = PepperPacingState::starting_at(&p, T0);
    assert!(can_send(&mut s, &p, 64, T0));
    update_after_send(&mut s, &p, 64, T0);
    assert!(!can_send(&mut s, &p, 64, T0 + 999));
    assert!(!can_send(&mut s, &p, 64, T0 + 1));
    assert!(can_send(&mut s, &p, 64, T0 + 1000));
    update_after_send(&mut s, &p, 64, T0 + 1000);
    assert!(!can_send(&mut s, &p, 64, T0 + 1500));
    assert!(can_send(&mut s, &p, 64, T0 + 2000));
}

#[test]
fn zero_minimum_interval_degrades_to_no_spacing() {
    let p = params(0, 100, false, 0);
    let mut s = PepperPacingState::starting_at(&p, T0);
    assert!(can_send(&mut s, &p, 64, T0));
    update_after_send(&mut s, &p, 64, T0);
    assert!(can_send(&mut s, &p, 64, T0));
}

#[test]
fn send_interval_is_transmit_time_or_minimum() {
    assert_eq!(send_interval(&params(8_000_000, 100, false, 1000), 1500), 1_500_000);
    assert_eq!(send_interval(&params(8_000_000_000, 100, false, 1000), 500), 1000);
    assert_eq!(send_interval(&params(0, 100, false, 1000), 1500), 1000);
    assert_eq!(send_interval(&params(3, 100, false, 0), 1), 2_666_666_666);
    assert_eq!(send_interval(&params(8_000_000, 100, false, 0), 0), 0);
}

#[test]
fn backoff_duration_scales_round_trip_by_loss() {
    assert_eq!(backoff_duration(200_000, 50_000_000), 150_000_000);
    assert_eq!(backoff_duration(1_000_000, 50_000_000), 550_000_000);
    assert_eq!(backoff_duration(100_001, 1_000_000), 2_000_010);
    assert_eq!(backoff_duration(150_000, 3), 7);
    assert_eq!(backoff_duration(0, 77), 77);
}

#[test]
fn backoff_duration_defaults_to_100_ms_round_trip() {
    assert_eq!(backoff_duration(200_000, 0), 300_000_000);
    assert_eq!(backoff_duration(500_000, 0), 600_000_000);
}

#[test]
fn backoff_opens_after_send_under_loss() {
    let p = params(0, 100, true, 1000);
    let mut s = PepperPacingState::starting_at(&p, T0);
    update_metrics(&mut s, 200_000, 50_000_000);
    assert!(!s.snapshot().in_backoff);
    assert!(can_send(&mut s, &p, 64, T0));
    update_after_send(&mut s, &p, 64, T0);
    let snap = s.snapshot();
    assert!(snap.in_backoff);
    assert_eq!(snap.backoff_until_ns, T0 + 150_000_000);
    assert!(!can_send(&mut s, &p, 64, T0 + 1000));
    assert!(!can_send(&mut s, &p, 64, T0 + 100_000_000));
    assert!(!can_send(&mut s, &p, 64, T0 + 149_999_999));
    assert!(s.snapshot().in_backoff);
    assert!(can_send(&mut s, &p, 64, T0 + 150_000_000));
    assert!(!s.snapshot().in_backoff);
}

#[test]
fn backoff_needs_loss_above_ten_percent() {
    let p = params(0, 100, true, 0);
    let mut s = PepperPacingState::starting_at(&p, T0);
    update_metrics(&mut s, 100_000, 50_000_000);
    update_after_send(&mut s, &p, 64, T0);
    assert!(!s.snapshot().in_backoff);
    assert!(can_send(&mut s, &p, 64, T0));
    update_metrics(&mut s, 100_001, 50_000_000);
    update_after_send(&mut s, &p, 64, T0);
    assert!(s.snapshot().in_backoff);
    assert_eq!(s.snapshot().backoff_until_ns, T0 + 100_000_500);
}

#[test]
fn backoff_needs_to_be_enabled() {
    let p = params(0, 100, false, 0);
    let mut s = PepperPacingState::starting_at(&p, T0);
    update_metrics(&mut s, 900_000, 50_000_000);
    update_after_send(&mut s, &p, 64, T0);
    assert!(!s.snapshot().in_backoff);
    assert_eq!(s.snapshot().backoff_until_ns, 0);
    assert!(can_send(&mut s, &p, 64, T0));
}

#[test]
fn backoff_uses_default_round_trip_when_none_known() {
    let p = params(0, 100, true, 0);
    let mut s = PepperPacingState::starting_at(&p, T0);
    update_metrics(&mut s, 200_000, 0);
    update_after_send(&mut s, &p, 64, T0);
    assert_eq!(s.snapshot().backoff_until_ns, T0 + 300_000_000);
}

#[test]
fn metrics_overwrite_estimates_and_nothing_else() {
    let p = params(8_000_000, 100, true, 1000);
    let mut s = PepperPacingState::starting_at(&p, T0);
    let before = s.snapshot();
    update_metrics(&mut s, 250_000, 42);
    let after = s.snapshot();
    assert_eq!(after.loss_rate_ppm, 250_000);
    assert_eq!(after.rtt_ns, 42);
    assert_eq!(after.tokens, before.tokens);
    assert_eq!(after.next_send_time_ns, before.next_send_time_ns);
    assert_eq!(after.last_update_ns, before.last_update_ns);
    assert_eq!(after.in_backoff, before.in_backoff);
    assert_eq!(after.backoff_until_ns, before.backoff_until_ns);
    update_metrics(&mut s, 0, 7);
    assert_eq!(s.snapshot().loss_rate_ppm, 0);
    assert_eq!(s.snapshot().rtt_ns, 7);
}

#[test]
fn blocked_question_leaves_backoff_state_alone() {
    let p = params(8_000_000, 100, true, 0);
    let mut s = PepperPacingState::starting_at(&p, T0);
    update_metrics(&mut s, 200_000, 50_000_000);
    update_after_send(&mut s, &p, 10, T0);
    let before = s.snapshot();
    assert!(!can_send(&mut s, &p, 1, T0 + 10));
    assert_eq!(s.snapshot(), before);
}

#[test]
fn times_stay_at_the_end_of_the_range() {
    let p = params(1, 100, true, 5);
    let mut s = PepperPacingState::starting_at(&p, 0);
    update_metrics(&mut s, u32::MAX, u64::MAX);
    update_after_send(&mut s, &p, 1, u64::MAX - 2);
    let snap = s.snapshot();
    assert_eq!(snap.next_send_time_ns, u64::MAX);
    assert_eq!(snap.backoff_until_ns, u64::MAX);
    assert!(snap.in_backoff);
    update_after_send(&mut s, &p, usize::MAX, 0);
    assert_eq!(s.snapshot().next_send_time_ns, u64::MAX);
}

#[test]
fn tokens_never_exceed_burst() {
    let p = params(64_000_000, 1000, false, 0);
    let mut s = PepperPacingState::starting_at(&p, T0);
    let mut now = T0;
    for round in 0..200u64 {
        now += (round * 7919) % 50_000;
        let size = ((round * 131) % 1200) as usize;
        if can_send(&mut s, &p, size, now) {
            update_after_send(&mut s, &p, size, now);
        }
        assert!(s.snapshot().tokens <= 1000);
    }
}
