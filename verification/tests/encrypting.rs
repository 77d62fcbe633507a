use journal_tui::encrypting::{EncryptingShow, SHOW_MILLIS};
use journal_tui::matrix::AnimationPhase;

#[test]
fn show_runs_for_two_seconds() {
    assert_eq!(SHOW_MILLIS, 2_000);
    let mut show = EncryptingShow::new_at(3, 3, 500);
    assert_eq!(show.animation().phase(), AnimationPhase::Decoding);
    assert_eq!(show.animation().message(), "ENCRYPTING VAULT - SECURING MEMORIES");
    assert!(show.tick_at(500, false));
    assert!(show.tick_at(2_499, false));
    assert!(!show.tick_at(2_500, false));
    assert!(!show.tick_at(600, false));
}

#[test]
fn show_types_two_characters_a_tick() {
    let mut show = EncryptingShow::new_at(3, 3, 0);
    for tick in 1..=18 {
        assert!(show.tick_at(tick, false));
        assert_eq!(show.animation().decoded_chars(), 2 * (tick as usize));
    }
    assert!(show.tick_at(19, false));
    assert_eq!(show.animation().decoded_chars(), 36);
}

#[test]
fn skip_ends_the_show() {
    let mut show = EncryptingShow::new_at(3, 3, 0);
    assert!(show.tick_at(50, false));
    let typed = show.animation().decoded_chars();
    assert!(!show.tick_at(100, true));
    assert_eq!(show.animation().decoded_chars(), typed);
    assert!(!show.tick_at(150, false));
}

#[test]
fn show_on_the_clock_begins_and_ticks() {
    let mut show = EncryptingShow::new(2, 2);
    assert!(show.tick(false));
    assert_eq!(show.animation().decoded_chars(), 2);
    assert!(!show.tick(true));
}
