use journal_tui::rain::{
    glyph_at, MatrixColumn, GLYPH_COUNT, MAX_ROWS, MAX_SPEED, MAX_TRAIL, MIN_SPEED, MIN_TRAIL, UNIT,
};

const ROW: i64 = 1_000_000;

fn glyphs() -> Vec<char> {
    (0..GLYPH_COUNT).map(glyph_at).collect()
}

fn brightness_of(column: &MatrixColumn) -> Vec<u32> {
    (0..column.rows()).map(|row| column.brightness(row)).collect()
}

#[test]
fn unit_is_a_million() {
    assert_eq!(UNIT, 1_000_000);
    assert_eq!(MAX_ROWS, 65_535);
}

#[test]
fn glyph_set_has_its_glyphs_in_order() {
    assert_eq!(GLYPH_COUNT, 106);
    assert_eq!(glyph_at(0), 'ア');
    assert_eq!(glyph_at(45), 'ン');
    assert_eq!(glyph_at(46), '0');
    assert_eq!(glyph_at(56), 'A');
    assert_eq!(glyph_at(81), 'Z');
    assert_eq!(glyph_at(82), '!');
    assert_eq!(glyph_at(97), '\\');
    assert_eq!(glyph_at(105), '/');
}

#[test]
fn new_column_is_dark_with_its_head_above_the_screen() {
    let known = glyphs();
    for _ in 0..200 {
        let column = MatrixColumn::new(24);
        assert_eq!(column.rows(), 24);
        assert!(-20 * ROW <= column.position() && column.position() < 0);
        assert!(MIN_SPEED <= column.speed() && column.speed() < MAX_SPEED);
        assert!(MIN_TRAIL <= column.length() && column.length() < MAX_TRAIL);
        for row in 0..24 {
            assert_eq!(column.brightness(row), 0);
            assert!(known.contains(&column.glyph(row)));
        }
    }
}

#[test]
fn new_columns_differ() {
    let mut positions = Vec::new();
    for _ in 0..50 {
        positions.push(MatrixColumn::new(4).position());
    }
    let first = positions[0];
    assert!(positions.iter().any(|position| *position != first));
}

#[test]
fn column_without_rows_ticks() {
    let mut column = MatrixColumn::new(0);
    assert_eq!(column.rows(), 0);
    column.update();
    assert_eq!(column.rows(), 0);
}

#[test]
fn band_is_lit_from_full_at_the_head_to_nothing_at_its_end() {
    let mut column = MatrixColumn::new(10);
    assert!(column.restart_with(2_500_000, 500_000, 5));
    column.update();
    assert_eq!(column.position(), 3_000_000);
    assert_eq!(column.speed(), 500_000);
    assert_eq!(column.length(), 5);
    assert_eq!(
        brightness_of(&column),
        vec![0, 0, 0, 1_000_000, 800_000, 600_000, 400_000, 200_000, 0, 0]
    );
    column.update();
    assert_eq!(column.position(), 3_500_000);
    assert_eq!(
        brightness_of(&column),
        vec![0, 0, 0, 950_000, 900_000, 700_000, 500_000, 300_000, 100_000, 0]
    );
}

#[test]
fn row_outside_the_band_keeps_ninety_five_hundredths() {
    let mut column = MatrixColumn::new(10);
    assert!(column.restart_with(2_500_000, 500_000, 5));
    column.update();
    assert_eq!(column.brightness(3), 1_000_000);
    let expected = [950_000, 902_500, 857_375, 814_506, 773_780];
    for value in expected {
        assert!(column.restart_with(-30 * ROW, 300_000, 5));
        column.update();
        assert_eq!(column.brightness(3), value);
    }
}

#[test]
fn afterglow_falls_strictly_until_it_is_nothing() {
    let mut column = MatrixColumn::new(10);
    assert!(column.restart_with(2_500_000, 500_000, 5));
    column.update();
    let mut last = column.brightness(4);
    assert_eq!(last, 800_000);
    let mut ticks = 0;
    while last > 0 {
        assert!(column.restart_with(-30 * ROW, 300_000, 5));
        column.update();
        let now = column.brightness(4);
        assert!(now < last);
        last = now;
        ticks += 1;
        assert!(ticks <= 400);
    }
    assert!(column.restart_with(-30 * ROW, 300_000, 5));
    column.update();
    assert_eq!(column.brightness(4), 0);
}

#[test]
fn faint_rows_lose_a_unit_a_tick() {
    let mut column = MatrixColumn::new(3);
    assert!(column.restart_with(-30 * ROW, 300_000, 5));
    assert!(column.restart_with(-4_999_997 - 300_000 + 2 * ROW, 300_000, 5));
    column.update();
    assert_eq!(column.brightness(2), 1);
    assert!(column.restart_with(-30 * ROW, 300_000, 5));
    column.update();
    assert_eq!(column.brightness(2), 0);
}

#[test]
fn head_at_the_very_end_of_the_screen_falls_on() {
    let mut column = MatrixColumn::new(3);
    assert!(column.restart_with(7_700_000, 300_000, 5));
    column.update();
    assert_eq!(column.position(), 8_000_000);
    assert_eq!(column.speed(), 300_000);
    assert_eq!(column.length(), 5);
}

#[test]
fn head_past_the_screen_starts_again_from_above() {
    for _ in 0..100 {
        let mut column = MatrixColumn::new(3);
        assert!(column.restart_with(8_000_000, 300_000, 5));
        column.update();
        assert!(-30 * ROW <= column.position() && column.position() < -10 * ROW);
        assert!(MIN_SPEED <= column.speed() && column.speed() < MAX_SPEED);
        assert!(MIN_TRAIL <= column.length() && column.length() < MAX_TRAIL);
        assert_eq!(column.rows(), 3);
    }
}

#[test]
fn glyphs_stay_glyphs_over_many_ticks() {
    let known = glyphs();
    let mut column = MatrixColumn::new(40);
    let before: Vec<char> = (0..40).map(|row| column.glyph(row)).collect();
    let mut changed = false;
    for _ in 0..2_000 {
        column.update();
        for row in 0..40 {
            assert!(known.contains(&column.glyph(row)));
            assert!(column.brightness(row) <= UNIT);
            if column.glyph(row) != before[row] {
                changed = true;
            }
        }
    }
    assert!(changed);
}

#[test]
fn restart_refuses_what_no_column_has() {
    let mut column = MatrixColumn::new(3);
    assert!(column.restart_with(0, 300_000, 5));
    assert!(!column.restart_with(0, 299_999, 5));
    assert!(!column.restart_with(0, 1_500_000, 5));
    assert!(!column.restart_with(0, 300_000, 4));
    assert!(!column.restart_with(0, 300_000, 20));
    assert!(!column.restart_with(-30 * ROW - 1, 300_000, 5));
    assert!(!column.restart_with(8_000_001, 300_000, 5));
    assert_eq!(column.position(), 0);
    assert_eq!(column.speed(), 300_000);
    assert_eq!(column.length(), 5);
    assert!(column.restart_with(22 * ROW, 1_499_999, 19));
    assert_eq!(column.position(), 22 * ROW);
}

#[test]
fn drawn_glyphs_replace_their_rows_in_a_tick_of_change() {
    let mut column = MatrixColumn::new(4);
    let before: Vec<char> = (0..4).map(|row| column.glyph(row)).collect();
    let position = column.position();
    column.flicker_with(true, &vec![None, Some(0), None, Some(105)]);
    assert_eq!(column.glyph(0), before[0]);
    assert_eq!(column.glyph(1), 'ア');
    assert_eq!(column.glyph(2), before[2]);
    assert_eq!(column.glyph(3), '/');
    assert_eq!(column.position(), position);
    assert_eq!(brightness_of(&column), vec![0, 0, 0, 0]);
}

#[test]
fn draws_change_nothing_in_another_tick() {
    let mut column = MatrixColumn::new(3);
    let before: Vec<char> = (0..3).map(|row| column.glyph(row)).collect();
    column.flicker_with(false, &vec![Some(1), Some(2), Some(3)]);
    let after: Vec<char> = (0..3).map(|row| column.glyph(row)).collect();
    assert_eq!(after, before);
    column.flicker_with(true, &vec![None, None, None]);
    let still: Vec<char> = (0..3).map(|row| column.glyph(row)).collect();
    assert_eq!(still, before);
}

#[test]
fn few_glyphs_change_in_a_tick() {
    let mut column = MatrixColumn::new(1_000);
    let mut changed = 0;
    for _ in 0..100 {
        let before: Vec<char> = (0..1_000).map(|row| column.glyph(row)).collect();
        column.update();
        changed += (0..1_000).filter(|row| column.glyph(*row) != before[*row]).count();
    }
    // One tick in ten, one glyph in fifty: some two hundred of a hundred thousand.
    assert!(changed > 0);
    assert!(changed < 2_000);
}

#[test]
fn afterglow_is_under_a_hundredth_after_ninety_ticks() {
    let mut column = MatrixColumn::new(10);
    assert!(column.restart_with(2_500_000, 500_000, 5));
    column.update();
    assert_eq!(column.brightness(3), UNIT);
    for _ in 0..89 {
        assert!(column.restart_with(-30 * ROW, 300_000, 5));
        column.update();
    }
    assert!(column.brightness(3) >= UNIT / 100);
    assert!(column.restart_with(-30 * ROW, 300_000, 5));
    column.update();
    assert!(column.brightness(3) < UNIT / 100);
}
