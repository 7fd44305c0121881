use bili_comment::rate_gate::{get_comment_interval, RateGate, COMMENT_INTERVAL_SECS};

#[test]
fn interval_is_five_seconds() {
    assert_eq!(get_comment_interval(), 5);
    assert_eq!(COMMENT_INTERVAL_SECS, 5);
    assert_eq!(RateGate::standard().interval_ms(), 5000);
}

#[test]
fn first_dispatch_does_not_wait() {
    let mut gate = RateGate::new(5000);
    assert_eq!(gate.wait(123_456), 0);
}

#[test]
fn second_dispatch_waits_out_the_interval() {
    let mut gate = RateGate::new(5000);
    assert_eq!(gate.wait(1_000), 0);
    assert_eq!(gate.wait(1_200), 4_800);
    assert_eq!(gate.wait(6_000), 5_000);
    assert_eq!(gate.wait(20_000), 0);
    assert_eq!(gate.wait(24_999), 1);
    assert_eq!(gate.wait(30_000), 0);
}

#[test]
fn dispatch_starts_are_spaced() {
    let mut gate = RateGate::standard();
    let asked = [0u64, 10, 20, 7_000, 7_001, 30_000, 30_000];
    let mut starts: Vec<u64> = Vec::new();
    for now in asked {
        let delay = gate.wait(now);
        starts.push(now + delay);
    }
    assert_eq!(starts, vec![0, 5_000, 10_000, 15_000, 20_000, 30_000, 35_000]);
    for pair in starts.windows(2) {
        assert!(pair[1] - pair[0] >= 5_000);
    }
}

#[test]
fn shared_gate_spaces_two_batches() {
    let mut gate = RateGate::new(5000);
    let first_batch = gate.wait(100);
    let second_batch = gate.wait(100);
    assert_eq!(first_batch, 0);
    assert_eq!(second_batch, 5_000);
}

#[test]
fn gate_near_the_end_of_the_clock_does_not_overflow() {
    let mut gate = RateGate::new(5000);
    assert_eq!(gate.wait(u64::MAX - 10), 0);
    assert_eq!(gate.wait(u64::MAX - 5), 5);
    assert_eq!(gate.wait(u64::MAX), 0);
}

#[test]
fn late_start_moves_the_next_dispatch() {
    let mut gate = RateGate::new(5000);
    assert_eq!(gate.wait(1_000), 0);
    gate.dispatched(1_300);
    assert_eq!(gate.wait(2_000), 4_300);
    gate.dispatched(6_000);
    assert_eq!(gate.wait(6_000), 5_300);
    gate.dispatched(12_000);
    gate.dispatched(10_000);
    assert_eq!(gate.wait(12_000), 5_000);
}

#[test]
fn start_told_to_a_new_gate_is_kept() {
    let mut gate = RateGate::new(5000);
    gate.dispatched(700);
    assert_eq!(gate.wait(700), 5_000);
}

#[test]
fn zero_interval_never_waits() {
    let mut gate = RateGate::new(0);
    assert_eq!(gate.wait(5), 0);
    assert_eq!(gate.wait(5), 0);
    assert_eq!(gate.wait(4), 1);
}
