use journal_tui::matrix::{AnimationPhase, MatrixAnimation, HOLD_MILLIS};

#[test]
fn new_animation_shows_rain_only() {
    let animation = MatrixAnimation::new(7, 5);
    assert_eq!(animation.phase(), AnimationPhase::MatrixRain);
    assert_eq!(animation.message(), "");
    assert_eq!(animation.decoded_chars(), 0);
    assert_eq!(animation.width(), 7);
    for index in 0..7 {
        assert_eq!(animation.column(index).rows(), 5);
    }
}

#[test]
fn animation_without_columns_ticks() {
    let mut animation = MatrixAnimation::new(0, 0);
    animation.update_at(10);
    animation.update();
    assert_eq!(animation.width(), 0);
    assert_eq!(animation.phase(), AnimationPhase::MatrixRain);
}

#[test]
fn start_of_authentication_sets_phase_and_message() {
    let mut animation = MatrixAnimation::new(2, 2);
    animation.start_authentication();
    assert_eq!(animation.phase(), AnimationPhase::Authenticating);
    assert_eq!(animation.message(), "BIOMETRIC SCAN INITIATED...");
    assert_eq!(animation.decoded_chars(), 0);
}

#[test]
fn success_resets_the_typing() {
    let mut animation = MatrixAnimation::new(2, 2);
    animation.start_authentication();
    animation.authentication_success();
    animation.update_at(1);
    animation.update_at(2);
    assert_eq!(animation.decoded_chars(), 2);
    animation.authentication_success();
    assert_eq!(animation.phase(), AnimationPhase::Decoding);
    assert_eq!(animation.message(), "ACCESS GRANTED - DECRYPTING JOURNAL");
    assert_eq!(animation.decoded_chars(), 0);
}

#[test]
fn failure_sets_phase_and_message() {
    let mut animation = MatrixAnimation::new(2, 2);
    animation.start_authentication();
    animation.authentication_failed();
    assert_eq!(animation.phase(), AnimationPhase::Failed);
    assert_eq!(animation.message(), "ACCESS DENIED");
}

#[test]
fn ticks_outside_decoding_type_nothing() {
    let mut animation = MatrixAnimation::new(3, 4);
    animation.start_authentication();
    for now in 0..100 {
        animation.update_at(now * 1_000);
    }
    assert_eq!(animation.phase(), AnimationPhase::Authenticating);
    assert_eq!(animation.decoded_chars(), 0);
}

#[test]
fn decoding_types_a_character_a_tick_and_stops_at_the_end() {
    let mut animation = MatrixAnimation::new(3, 4);
    animation.authentication_success();
    for typed in 1..=35 {
        animation.update_at(0);
        assert_eq!(animation.decoded_chars(), typed);
        assert_eq!(animation.typed_message(), &"ACCESS GRANTED - DECRYPTING JOURNAL"[..typed]);
    }
    animation.update_at(0);
    assert_eq!(animation.decoded_chars(), 35);
    assert_eq!(animation.phase(), AnimationPhase::Decoding);
}

#[test]
fn success_comes_only_after_the_hold() {
    assert_eq!(HOLD_MILLIS, 3_000);
    let mut animation = MatrixAnimation::new(3, 4);
    animation.authentication_success();
    for tick in 0..35 {
        animation.update_at(100_000 + tick);
    }
    assert_eq!(animation.decoded_chars(), 35);
    // This tick finds the message fully typed and marks the moment.
    animation.update_at(200_000);
    assert_eq!(animation.phase(), AnimationPhase::Decoding);
    animation.update_at(202_999);
    assert_eq!(animation.phase(), AnimationPhase::Decoding);
    animation.update_at(203_000);
    assert_eq!(animation.phase(), AnimationPhase::Decoding);
    animation.update_at(203_001);
    assert_eq!(animation.phase(), AnimationPhase::Success);
    animation.update_at(0);
    assert_eq!(animation.phase(), AnimationPhase::Success);
}

#[test]
fn clock_that_runs_backwards_does_not_end_the_hold() {
    let mut animation = MatrixAnimation::new(1, 1);
    animation.authentication_success();
    for _ in 0..35 {
        animation.update_at(0);
    }
    animation.update_at(50_000);
    animation.update_at(10_000);
    assert_eq!(animation.phase(), AnimationPhase::Decoding);
}

#[test]
fn encrypting_message_is_typed_ahead() {
    let mut animation = MatrixAnimation::new(1, 1);
    animation.start_encrypting();
    assert_eq!(animation.phase(), AnimationPhase::Decoding);
    assert_eq!(animation.message(), "ENCRYPTING VAULT - SECURING MEMORIES");
    for typed in 1..=36 {
        animation.type_ahead();
        assert_eq!(animation.decoded_chars(), typed);
    }
    animation.type_ahead();
    assert_eq!(animation.decoded_chars(), 36);
    assert_eq!(animation.typed_message(), "ENCRYPTING VAULT - SECURING MEMORIES");
}

#[test]
fn tick_on_the_clock_advances_the_rain() {
    let mut animation = MatrixAnimation::new(2, 3);
    let before = animation.column(0).position();
    let speed = animation.column(0).speed();
    animation.update();
    assert_eq!(animation.column(0).position(), before + speed);
    assert!(animation.elapsed_millis() < 60_000);
}

#[test]
fn mark_of_an_earlier_message_does_not_end_the_next() {
    let mut animation = MatrixAnimation::new(1, 1);
    animation.authentication_success();
    for _ in 0..35 {
        animation.type_ahead();
    }
    animation.update_at(0);
    assert_eq!(animation.phase(), AnimationPhase::Decoding);
    animation.authentication_success();
    animation.update_at(4_000);
    assert_eq!(animation.phase(), AnimationPhase::Decoding);
    assert_eq!(animation.decoded_chars(), 1);
    for _ in 0..34 {
        animation.update_at(4_000);
    }
    assert_eq!(animation.decoded_chars(), 35);
    // The mark is set anew, by the first tick that finds this message typed.
    animation.update_at(10_000);
    assert_eq!(animation.phase(), AnimationPhase::Decoding);
    animation.update_at(13_000);
    assert_eq!(animation.phase(), AnimationPhase::Decoding);
    animation.update_at(13_001);
    assert_eq!(animation.phase(), AnimationPhase::Success);
}

#[test]
fn show_of_a_new_vault_starts_without_a_mark() {
    let mut animation = MatrixAnimation::new(1, 1);
    animation.authentication_success();
    for _ in 0..36 {
        animation.update_at(0);
    }
    animation.start_encrypting();
    animation.update_at(9_000);
    assert_eq!(animation.phase(), AnimationPhase::Decoding);
    assert_eq!(animation.decoded_chars(), 1);
}

#[test]
fn typed_count_is_capped_at_the_length_of_the_message() {
    let mut animation = MatrixAnimation::new(1, 1);
    animation.authentication_success();
    for _ in 0..35 {
        animation.update_at(0);
    }
    // A shorter message with the count of the longer one, typed ahead.
    animation.authentication_failed();
    assert_eq!(animation.decoded_chars(), 35);
    animation.type_ahead();
    assert_eq!(animation.decoded_chars(), 13);
    animation.start_encrypting();
    for tick in 0..100 {
        animation.update_at(tick);
        animation.type_ahead();
        assert!(animation.decoded_chars() <= 36);
    }
    assert_eq!(animation.decoded_chars(), 36);
}
