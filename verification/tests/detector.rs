use freefall::accel::BoardAccel;
use freefall::classifier::{classify, FallThresholds, ENTER_FALL_MG, EXIT_FALL_MG};
use freefall::state::{BoardState, Transition};

#[test]
fn average_is_exact_mean() {
    let mut a = BoardAccel::new();
    a.add_to_total(1, 2, 3);
    a.add_to_total(3, 4, 5);
    assert_eq!(a.average_over_sample(), (2, 3, 4));
}

#[test]
fn average_truncates_toward_zero() {
    let mut a = BoardAccel::new();
    a.add_to_total(1, -1, 3);
    a.add_to_total(2, -2, 4);
    // 3 / 2 -> 1, -3 / 2 -> -1, 7 / 2 -> 3: always toward zero.
    assert_eq!(a.average_over_sample(), (1, -1, 3));
}

#[test]
fn average_resets_the_window() {
    let mut a = BoardAccel::new();
    a.add_to_total(100, 200, 300);
    let _ = a.average_over_sample();
    assert_eq!(a.sample_size, 0);
    // Only samples added after the drain count toward the next average.
    a.add_to_total(10, 10, 10);
    assert_eq!(a.average_over_sample(), (10, 10, 10));
}

#[test]
fn drain_with_no_samples_returns_zero_triple() {
    let mut a = BoardAccel::new();
    assert_eq!(a.average_over_sample(), (0, 0, 0));
    // Still defined on a repeated empty drain.
    assert_eq!(a.average_over_sample(), (0, 0, 0));
}

#[test]
fn reset_clears_sums_and_count() {
    let mut a = BoardAccel::new();
    a.add_to_total(7, 8, 9);
    a.reset();
    assert_eq!(a.sample_size, 0);
    assert_eq!((a.x, a.y, a.z), (0, 0, 0));
    assert_eq!(a.average_over_sample(), (0, 0, 0));
}

#[test]
fn average_of_extreme_samples() {
    let mut a = BoardAccel::new();
    a.add_to_total(i32::MAX, i32::MIN, i32::MAX);
    a.add_to_total(i32::MAX, i32::MIN, i32::MIN);
    let (x, y, z) = a.average_over_sample();
    assert_eq!(x, i32::MAX);
    assert_eq!(y, i32::MIN);
    // The z sums cancel to -1; -1 / 2 truncates toward zero.
    assert_eq!(z, 0);
}

#[test]
fn tuple_and_triple_accumulate_agree() {
    let mut a = BoardAccel::new();
    let mut b = BoardAccel::new();
    a.add_to_total(-5, 6, -7);
    b.add_tuple_to_total((-5, 6, -7));
    assert_eq!(a.average_over_sample(), b.average_over_sample());
}

#[test]
fn thresholds_require_a_band() {
    assert!(FallThresholds::new(550, 500).is_none());
    assert!(FallThresholds::new(500, 500).is_none());
    let t = FallThresholds::new(500, 550).unwrap();
    assert_eq!(t.enter_mg, 500);
    assert_eq!(t.exit_mg, 550);
}

#[test]
fn default_thresholds_are_half_g_band() {
    let t = FallThresholds::default();
    assert_eq!(t.enter_mg, ENTER_FALL_MG);
    assert_eq!(t.exit_mg, EXIT_FALL_MG);
    assert_eq!((t.enter_mg, t.exit_mg), (500, 550));
}

#[test]
fn classify_at_the_enter_boundary() {
    let t = FallThresholds::default();
    // Magnitude exactly 0.5 g is not below the enter threshold.
    assert_eq!(classify(BoardState::NotFalling, 0, 0, 500, &t), None);
    // One milli-g less is.
    assert_eq!(classify(BoardState::NotFalling, 0, 0, 499, &t), Some(Transition::Fell));
}

#[test]
fn classify_at_the_exit_boundary() {
    let t = FallThresholds::default();
    // Magnitude exactly 0.55 g is not above the exit threshold.
    assert_eq!(classify(BoardState::Falling, 0, 0, 550, &t), None);
    // One milli-g more is.
    assert_eq!(classify(BoardState::Falling, 0, 0, 551, &t), Some(Transition::Recovered));
}

#[test]
fn classify_uses_all_three_axes() {
    let t = FallThresholds::default();
    // sqrt(300^2 + 400^2) = 500 exactly: on the boundary, no signal.
    assert_eq!(classify(BoardState::NotFalling, 300, 400, 0, &t), None);
    assert_eq!(classify(BoardState::NotFalling, 300, 399, 0, &t), Some(Transition::Fell));
    // Signs do not matter: magnitude is a square.
    assert_eq!(classify(BoardState::NotFalling, -300, -399, 0, &t), Some(Transition::Fell));
}

#[test]
fn fall_is_detected_from_low_average() {
    // Averaged (0, 0, 200): magnitude 0.2 g, below enter threshold 0.5 g
    // while NotFalling, so the board transitions to Falling.
    let mut a = BoardAccel::new();
    for _ in 0..5 {
        a.add_to_total(0, 0, 200);
    }
    let (x, y, z) = a.average_over_sample();
    assert_eq!((x, y, z), (0, 0, 200));
    assert_eq!(a.microbit_is_falling(x, y, z), Some(Transition::Fell));
    assert_eq!(a.state, BoardState::Falling);
}

#[test]
fn recovery_is_detected_from_full_gravity() {
    // Averaged (0, 0, 1000): magnitude 1.0 g, above exit threshold 0.55 g
    // while Falling, so the board transitions back to NotFalling.
    let mut a = BoardAccel::new();
    assert_eq!(a.microbit_is_falling(0, 0, 200), Some(Transition::Fell));
    assert_eq!(a.microbit_is_falling(0, 0, 1000), Some(Transition::Recovered));
    assert_eq!(a.state, BoardState::NotFalling);
}

#[test]
fn falling_holds_inside_the_band() {
    // Averaged (0, 0, 520) while Falling: magnitude 0.52 g is not above the
    // exit threshold 0.55 g, so the state holds and no signal is emitted.
    let mut a = BoardAccel::new();
    assert_eq!(a.microbit_is_falling(0, 0, 200), Some(Transition::Fell));
    assert_eq!(a.microbit_is_falling(0, 0, 520), None);
    assert_eq!(a.state, BoardState::Falling);
}

#[test]
fn no_chatter_on_an_oscillating_magnitude() {
    // Magnitudes oscillating between 0.48 g and 0.52 g with the (0.5, 0.55)
    // band: the first dip below 0.5 g flips the board to Falling, and no
    // later value in the oscillation can flip it back.
    let mut a = BoardAccel::new();
    assert_eq!(a.microbit_is_falling(0, 0, 480), Some(Transition::Fell));
    assert_eq!(a.state, BoardState::Falling);
    for _ in 0..10 {
        assert_eq!(a.microbit_is_falling(0, 0, 520), None);
        assert_eq!(a.microbit_is_falling(0, 0, 480), None);
        assert_eq!(a.state, BoardState::Falling);
    }
}

#[test]
fn inconsistent_signals_are_no_ops() {
    assert_eq!(BoardState::Falling.on_signal(Transition::Fell), BoardState::Falling);
    assert_eq!(BoardState::NotFalling.on_signal(Transition::Recovered), BoardState::NotFalling);
    assert_eq!(BoardState::NotFalling.on_signal(Transition::Fell), BoardState::Falling);
    assert_eq!(BoardState::Falling.on_signal(Transition::Recovered), BoardState::NotFalling);
}

#[test]
fn next_flips_the_state() {
    assert_eq!(BoardState::new(), BoardState::NotFalling);
    assert_eq!(BoardState::NotFalling.next(), BoardState::Falling);
    assert_eq!(BoardState::Falling.next(), BoardState::NotFalling);
}

#[test]
fn scaling_all_axes_scales_the_magnitude() {
    // (3, 4, 12) has magnitude 13; scaled by 10 it has magnitude 130.
    // Against thresholds scaled the same way, the decision is identical.
    let small = FallThresholds::new(14, 15).unwrap();
    let large = FallThresholds::new(140, 150).unwrap();
    assert_eq!(
        classify(BoardState::NotFalling, 3, 4, 12, &small),
        classify(BoardState::NotFalling, 30, 40, 120, &large),
    );
    assert_eq!(classify(BoardState::NotFalling, 3, 4, 12, &small), Some(Transition::Fell));
    // One step over the small threshold is over the large one as well.
    assert_eq!(
        classify(BoardState::NotFalling, 0, 0, 14, &small),
        classify(BoardState::NotFalling, 0, 0, 140, &large),
    );
    assert_eq!(classify(BoardState::NotFalling, 0, 0, 14, &small), None);
}

#[test]
fn custom_thresholds_drive_the_detector() {
    let t = FallThresholds::new(300, 400).unwrap();
    let mut a = BoardAccel::with_thresholds(t);
    // 0.35 g is not below the 0.3 g enter threshold: no fall.
    assert_eq!(a.microbit_is_falling(0, 0, 350), None);
    assert_eq!(a.state, BoardState::NotFalling);
    // 0.25 g is: the board falls, and recovers only above 0.4 g.
    assert_eq!(a.microbit_is_falling(0, 0, 250), Some(Transition::Fell));
    assert_eq!(a.microbit_is_falling(0, 0, 350), None);
    assert_eq!(a.microbit_is_falling(0, 0, 450), Some(Transition::Recovered));
}
