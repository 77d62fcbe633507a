//! One column of falling glyphs and its brightness trail.
//!
//! Positions, speeds and brightness are fixed-point numbers: one row, and full
//! brightness, is [`UNIT`].

use crate::chance::{chance_of, index_below, integer_between};
use vstd::prelude::*;
use vstd::string::StrSliceExecFns;

verus! {

/// One row of fall, and full brightness, in fixed-point units.
pub const UNIT: u32 = 1_000_000;

/// The tallest column there is.
pub const MAX_ROWS: usize = 65_535;

/// The shortest trail.
pub const MIN_TRAIL: usize = 5;

/// One more than the longest trail.
pub const MAX_TRAIL: usize = 20;

/// The slowest fall, per tick.
pub const MIN_SPEED: i64 = 300_000;

/// Just above the fastest fall, per tick.
pub const MAX_SPEED: i64 = 1_500_000;

/// The glyphs a column is made of.
pub open spec fn glyph_set() -> Seq<char> {
    "アイウエオカキクケコサシスセソタチツテトナニヌネノハヒフヘホマミムメモヤユヨラリルレロワヲン0123456789ABCDEFGHIJKLMNOPQRSTUVWXYZ!@#$%^&*(){}[]|\\:;<>?,./"@
}

/// Whether `c` is one of the glyphs of [`glyph_set`].
pub open spec fn is_glyph(c: char) -> bool {
    glyph_set().contains(c)
}

/// Whether `row` lies in the lit band that starts at `position` and is
/// `length` rows long.
pub open spec fn in_band(row: int, position: int, length: int) -> bool {
    0 <= row * UNIT - position < length * UNIT
}

/// The brightness of a row in the band: full at its head, fading linearly to
/// nothing at its end.
pub open spec fn lit(row: int, position: int, length: int) -> int {
    UNIT - (row * UNIT - position) / length
}

/// The brightness left of `brightness` after one tick outside the band.
pub open spec fn decayed(brightness: int) -> int {
    brightness * 95 / 100
}

/// The brightness of `row` after a tick that leaves the head at `position`.
pub open spec fn faded(brightness: int, row: int, position: int, length: int) -> int {
    if in_band(row, position, length) {
        lit(row, position, length)
    } else {
        decayed(brightness)
    }
}

/// Whether a head at `position` has left a column of `rows` rows, trail and all.
pub open spec fn off_screen(position: int, rows: int, length: int) -> bool {
    position > (rows + length) * UNIT
}

/// What a column is, as plain values.
pub struct ColumnView {
    pub glyphs: Seq<char>,
    pub position: int,
    pub speed: int,
    pub length: int,
    pub brightness: Seq<u32>,
}

impl ColumnView {
    /// What holds of every column.
    pub open spec fn wf(self) -> bool {
        &&& self.glyphs.len() == self.brightness.len()
        &&& self.glyphs.len() <= MAX_ROWS
        &&& forall|i: int| 0 <= i < self.glyphs.len() ==> is_glyph(#[trigger] self.glyphs[i])
        &&& forall|i: int| 0 <= i < self.brightness.len() ==> #[trigger] self.brightness[i] <= UNIT
        &&& MIN_TRAIL <= self.length < MAX_TRAIL
        &&& MIN_SPEED <= self.speed < MAX_SPEED
        &&& -30 * UNIT <= self.position <= (self.glyphs.len() + self.length) * UNIT
    }

    /// Whether the column is new: `height` rows, all dark, with its head up
    /// to twenty rows above the screen.
    pub open spec fn is_new(self, height: int) -> bool {
        &&& self.wf()
        &&& self.glyphs.len() == height
        &&& -20 * UNIT <= self.position < 0
        &&& forall|i: int| 0 <= i < self.brightness.len() ==> #[trigger] self.brightness[i] == 0
    }

    /// Whether the column has just begun a fall from above the screen.
    pub open spec fn restarted(self) -> bool {
        -30 * UNIT <= self.position < -10 * UNIT
    }

    /// The brightness of every row after a tick that moves the head by the
    /// column's speed.
    pub open spec fn next_brightness(self) -> Seq<u32> {
        Seq::new(
            self.brightness.len(),
            |i: int| faded(self.brightness[i] as int, i, self.position + self.speed, self.length) as u32,
        )
    }
}

/// One column of the rain.
pub struct MatrixColumn {
    chars: Vec<char>,
    position: i64,
    speed: i64,
    length: usize,
    brightness: Vec<u32>,
}

impl View for MatrixColumn {
    type V = ColumnView;

    closed spec fn view(&self) -> ColumnView {
        ColumnView {
            glyphs: self.chars@,
            position: self.position as int,
            speed: self.speed as int,
            length: self.length as int,
            brightness: self.brightness@,
        }
    }
}

/// The number of glyphs in [`glyph_set`].
pub const GLYPH_COUNT: usize = 106;

/// The glyph at `index` of [`glyph_set`].
pub fn glyph_at(index: usize) -> (c: char)
    requires
        index < GLYPH_COUNT,
    ensures
        c == glyph_set()[index as int],
        is_glyph(c),
{
    let glyphs = "アイウエオカキクケコサシスセソタチツテトナニヌネノハヒフヘホマミムメモヤユヨラリルレロワヲン0123456789ABCDEFGHIJKLMNOPQRSTUVWXYZ!@#$%^&*(){}[]|\\:;<>?,./";
    proof {
        reveal_strlit("アイウエオカキクケコサシスセソタチツテトナニヌネノハヒフヘホマミムメモヤユヨラリルレロワヲン0123456789ABCDEFGHIJKLMNOPQRSTUVWXYZ!@#$%^&*(){}[]|\\:;<>?,./");
    }
    glyphs.get_char(index)
}

/// [`glyph_set`] has [`GLYPH_COUNT`] glyphs.
pub proof fn lemma_glyph_count()
    ensures
        glyph_set().len() == GLYPH_COUNT,
{
    reveal_strlit("アイウエオカキクケコサシスセソタチツテトナニヌネノハヒフヘホマミムメモヤユヨラリルレロワヲン0123456789ABCDEFGHIJKLMNOPQRSTUVWXYZ!@#$%^&*(){}[]|\\:;<>?,./");
}

/// The brightness left of `brightness` after `ticks` ticks outside the band.
pub open spec fn afterglow(brightness: int, ticks: nat) -> int
    decreases ticks,
{
    if ticks == 0 {
        brightness
    } else {
        decayed(afterglow(brightness, (ticks - 1) as nat))
    }
}

/// Outside the band a lit row gets strictly darker with every tick, and a
/// dark row stays dark.
pub proof fn lemma_decay_is_strict(brightness: int)
    requires
        0 <= brightness,
    ensures
        0 <= decayed(brightness),
        brightness > 0 ==> decayed(brightness) < brightness,
        brightness == 0 ==> decayed(brightness) == 0,
{
}

/// The afterglow of a row falls strictly, tick over tick, until it is
/// nothing, which it is after at most as many ticks as it had units of
/// brightness, and stays.
pub proof fn lemma_afterglow_fades_out(brightness: int, ticks: nat)
    requires
        0 <= brightness,
    ensures
        0 <= afterglow(brightness, ticks) <= brightness,
        afterglow(brightness, ticks) > 0 ==> afterglow(brightness, ticks + 1) < afterglow(
            brightness,
            ticks,
        ),
        afterglow(brightness, ticks) == 0 ==> afterglow(brightness, ticks + 1) == 0,
        afterglow(brightness, ticks) + ticks <= brightness || afterglow(brightness, ticks) == 0,
    decreases ticks,
{
    if ticks > 0 {
        lemma_afterglow_fades_out(brightness, (ticks - 1) as nat);
        lemma_decay_is_strict(afterglow(brightness, (ticks - 1) as nat));
    }
    lemma_decay_is_strict(afterglow(brightness, ticks));
}

/// The afterglow after some ticks and then some more is the afterglow, after
/// the latter, of what was left after the former.
pub proof fn lemma_afterglow_adds(brightness: int, first: nat, then: nat)
    ensures
        afterglow(brightness, first + then) == afterglow(afterglow(brightness, first), then),
    decreases then,
{
    if then > 0 {
        lemma_afterglow_adds(brightness, first, (then - 1) as nat);
        assert(first + then - 1 == first + (then - 1));
    }
}

/// Ten ticks outside the band leave under six tenths of the brightness.
proof fn lemma_ten_ticks_of_afterglow(brightness: int)
    requires
        0 <= brightness,
    ensures
        0 <= afterglow(brightness, 10),
        10_000 * afterglow(brightness, 10) <= 5_988 * brightness,
{
    let b0 = afterglow(brightness, 0);
    let b1 = afterglow(brightness, 1);
    let b2 = afterglow(brightness, 2);
    let b3 = afterglow(brightness, 3);
    let b4 = afterglow(brightness, 4);
    let b5 = afterglow(brightness, 5);
    let b6 = afterglow(brightness, 6);
    let b7 = afterglow(brightness, 7);
    let b8 = afterglow(brightness, 8);
    let b9 = afterglow(brightness, 9);
    let b10 = afterglow(brightness, 10);
    assert(b0 == brightness);
    assert(b1 == decayed(b0) && 0 <= b1 && 100 * b1 <= 95 * b0);
    assert(b2 == decayed(b1) && 0 <= b2 && 100 * b2 <= 95 * b1);
    assert(b3 == decayed(b2) && 0 <= b3 && 100 * b3 <= 95 * b2);
    assert(b4 == decayed(b3) && 0 <= b4 && 100 * b4 <= 95 * b3);
    assert(b5 == decayed(b4) && 0 <= b5 && 100 * b5 <= 95 * b4);
    assert(b6 == decayed(b5) && 0 <= b6 && 100 * b6 <= 95 * b5);
    assert(b7 == decayed(b6) && 0 <= b7 && 100 * b7 <= 95 * b6);
    assert(b8 == decayed(b7) && 0 <= b8 && 100 * b8 <= 95 * b7);
    assert(b9 == decayed(b8) && 0 <= b9 && 100 * b9 <= 95 * b8);
    assert(b10 == decayed(b9) && 0 <= b10 && 100 * b10 <= 95 * b9);
}

/// After ninety ticks outside the band a row holds under a hundredth of full
/// brightness, however bright it was.
pub proof fn lemma_afterglow_is_faint_after_ninety_ticks(brightness: int)
    requires
        0 <= brightness <= UNIT,
    ensures
        0 <= afterglow(brightness, 90),
        100 * afterglow(brightness, 90) < UNIT,
{
    let c1 = afterglow(brightness, 10);
    let c2 = afterglow(brightness, 20);
    let c3 = afterglow(brightness, 30);
    let c4 = afterglow(brightness, 40);
    let c5 = afterglow(brightness, 50);
    let c6 = afterglow(brightness, 60);
    let c7 = afterglow(brightness, 70);
    let c8 = afterglow(brightness, 80);
    let c9 = afterglow(brightness, 90);
    lemma_ten_ticks_of_afterglow(brightness);
    lemma_afterglow_adds(brightness, 10, 10);
    lemma_ten_ticks_of_afterglow(c1);
    lemma_afterglow_adds(brightness, 20, 10);
    lemma_ten_ticks_of_afterglow(c2);
    lemma_afterglow_adds(brightness, 30, 10);
    lemma_ten_ticks_of_afterglow(c3);
    lemma_afterglow_adds(brightness, 40, 10);
    lemma_ten_ticks_of_afterglow(c4);
    lemma_afterglow_adds(brightness, 50, 10);
    lemma_ten_ticks_of_afterglow(c5);
    lemma_afterglow_adds(brightness, 60, 10);
    lemma_ten_ticks_of_afterglow(c6);
    lemma_afterglow_adds(brightness, 70, 10);
    lemma_ten_ticks_of_afterglow(c7);
    lemma_afterglow_adds(brightness, 80, 10);
    lemma_ten_ticks_of_afterglow(c8);
    assert(UNIT == 1_000_000);
}

/// A row that the head has passed is outside the band, and stays outside
/// wherever the head falls to from there.
pub proof fn lemma_passed_rows_stay_dark(row: int, position: int, later: int, length: int)
    requires
        row * UNIT < position,
        position <= later,
    ensures
        !in_band(row, later, length),
{
}

/// In one tick of a column, a row that is outside the band once the head has
/// moved gets strictly darker if it was lit at all, and stays dark if not.
pub proof fn lemma_rows_outside_band_fade(column: ColumnView, row: int)
    requires
        column.wf(),
        0 <= row < column.brightness.len(),
        !in_band(row, column.position + column.speed, column.length),
    ensures
        column.next_brightness()[row] == decayed(column.brightness[row] as int),
        column.brightness[row] > 0 ==> column.next_brightness()[row] < column.brightness[row],
        column.brightness[row] == 0 ==> column.next_brightness()[row] == 0,
{
    lemma_decay_is_strict(column.brightness[row] as int);
}

/// In one tick of a column, a row inside the band once the head has moved is
/// lit: fully at the head, and less the further down the trail it lies.
pub proof fn lemma_rows_in_band_are_lit(column: ColumnView, row: int)
    requires
        column.wf(),
        0 <= row < column.brightness.len(),
        in_band(row, column.position + column.speed, column.length),
    ensures
        column.next_brightness()[row] == lit(row, column.position + column.speed, column.length),
        0 < column.next_brightness()[row] <= UNIT,
        row * UNIT == column.position + column.speed ==> column.next_brightness()[row] == UNIT,
{
    let relative = row * UNIT - (column.position + column.speed);
    let length = column.length;
    assert(0 <= relative / length < UNIT) by (nonlinear_arith)
        requires
            0 <= relative < length * UNIT,
            length > 0,
    ;
}

/// Whether `after` is what a tick makes of `before` when the head falls on
/// without starting again; the glyphs aside.
pub open spec fn fell(before: ColumnView, after: ColumnView) -> bool {
    &&& after.position == before.position + before.speed
    &&& after.speed == before.speed
    &&& after.length == before.length
    &&& after.brightness == before.next_brightness()
}

/// Whether `after` is what one tick makes of the column `before`: rows fade
/// or light up, and the head falls on, or starts again from above once it
/// has left the screen.
pub open spec fn column_advanced(before: ColumnView, after: ColumnView) -> bool {
    &&& after.wf()
    &&& after.glyphs.len() == before.glyphs.len()
    &&& after.brightness == before.next_brightness()
    &&& if off_screen(before.position + before.speed, before.glyphs.len() as int, before.length) {
        after.restarted()
    } else {
        fell(before, after)
    }
}

/// Through any run of ticks in which the head falls on without starting
/// again, a row that the head has passed holds the afterglow of what it held
/// when the run began: it gets darker with every tick until it is dark.
pub proof fn lemma_passed_row_holds_afterglow(states: Seq<ColumnView>, row: int, tick: int)
    requires
        forall|i: int| 0 <= i < states.len() - 1 ==> fell(#[trigger] states[i], states[i + 1]),
        0 <= tick < states.len(),
        0 <= row < states[0].brightness.len(),
        row * UNIT < states[0].position,
        states[0].speed >= 0,
    ensures
        states[tick].position == states[0].position + tick * states[0].speed,
        states[tick].brightness.len() == states[0].brightness.len(),
        states[tick].brightness[row] == afterglow(states[0].brightness[row] as int, tick as nat),
        tick > 0 && states[tick - 1].brightness[row] > 0 ==> states[tick].brightness[row]
            < states[tick - 1].brightness[row],
    decreases tick,
{
    if tick > 0 {
        lemma_passed_row_holds_afterglow(states, row, tick - 1);
        let before = states[tick - 1];
        assert(fell(before, states[tick]));
        assert(states[tick].speed == states[0].speed && before.speed == states[0].speed) by {
            lemma_fall_keeps_speed(states, tick);
            lemma_fall_keeps_speed(states, tick - 1);
        }
        assert(before.position + before.speed == states[0].position + tick * states[0].speed)
            by (nonlinear_arith)
            requires
                before.position == states[0].position + (tick - 1) * states[0].speed,
                before.speed == states[0].speed,
        ;
        assert(tick * states[0].speed >= 0) by (nonlinear_arith)
            requires
                tick >= 0,
                states[0].speed >= 0,
        ;
        lemma_passed_rows_stay_dark(
            row,
            states[0].position,
            before.position + before.speed,
            before.length,
        );
        lemma_decay_is_strict(before.brightness[row] as int);
    }
}

/// A head that falls on keeps its speed.
proof fn lemma_fall_keeps_speed(states: Seq<ColumnView>, tick: int)
    requires
        forall|i: int| 0 <= i < states.len() - 1 ==> fell(#[trigger] states[i], states[i + 1]),
        0 <= tick < states.len(),
    ensures
        states[tick].speed == states[0].speed,
    decreases tick,
{
    if tick > 0 {
        lemma_fall_keeps_speed(states, tick - 1);
        assert(fell(states[tick - 1], states[tick]));
    }
}

/// The glyphs after a tick for which `draws` were made: where `flicker`
/// holds, a row for which a glyph of [`glyph_set`] was drawn shows that
/// glyph, and every other row shows what it showed.
pub open spec fn flickered(glyphs: Seq<char>, flicker: bool, draws: Seq<Option<usize>>) -> Seq<
    char,
> {
    Seq::new(
        glyphs.len(),
        |i: int|
            if flicker && draws[i] is Some {
                glyph_set()[draws[i]->0 as int]
            } else {
                glyphs[i]
            },
    )
}

/// The draws of one tick for a column of `rows` rows: none where `flicker`
/// does not hold, and else, for each row with one chance in fifty, a glyph
/// of [`glyph_set`].
fn draw_glyphs(rows: usize, flicker: bool) -> (draws: Vec<Option<usize>>)
    ensures
        draws@.len() == rows,
        forall|i: int|
            0 <= i < draws@.len() ==> (#[trigger] draws@[i] matches Some(g) ==> g < GLYPH_COUNT),
        !flicker ==> forall|i: int| 0 <= i < draws@.len() ==> #[trigger] draws@[i] is None,
{
    let mut draws: Vec<Option<usize>> = Vec::new();
    let mut row: usize = 0;
    while row < rows
        invariant
            row <= rows,
            draws@.len() == row,
            forall|i: int|
                0 <= i < row ==> (#[trigger] draws@[i] matches Some(g) ==> g < GLYPH_COUNT),
            !flicker ==> forall|i: int| 0 <= i < row ==> #[trigger] draws@[i] is None,
        decreases rows - row,
    {
        if flicker && chance_of(1, 50) {
            draws.push(Some(index_below(GLYPH_COUNT)));
        } else {
            draws.push(None);
        }
        row = row + 1;
    }
    draws
}

/// The brightness of `row` after a tick that leaves the head at `position`.
fn fade(brightness: u32, row: usize, position: i64, length: usize) -> (r: u32)
    requires
        brightness <= UNIT,
        row < MAX_ROWS,
        MIN_TRAIL <= length < MAX_TRAIL,
        -30 * UNIT <= position <= (MAX_ROWS + MAX_TRAIL) * UNIT + MAX_SPEED,
    ensures
        r == faded(brightness as int, row as int, position as int, length as int),
        r <= UNIT,
{
    assert(0 <= row * UNIT <= MAX_ROWS * UNIT) by (nonlinear_arith)
        requires
            0 <= row < MAX_ROWS,
    ;
    assert(MAX_ROWS * UNIT == 65_535_000_000 && MAX_TRAIL * UNIT == 20_000_000 && -30 * UNIT
        == -30_000_000);
    let relative: i64 = (row as i64) * (UNIT as i64) - position;
    let band: i64 = (length as i64) * (UNIT as i64);
    if 0 <= relative && relative < band {
        let drop: i64 = relative / (length as i64);
        assert(0 <= drop < UNIT) by (nonlinear_arith)
            requires
                0 <= relative < length * UNIT,
                length > 0,
                drop == (relative as int) / (length as int),
        ;
        (UNIT as i64 - drop) as u32
    } else {
        brightness * 95 / 100
    }
}

impl MatrixColumn {
    #[verifier::type_invariant]
    spec fn inv(self) -> bool {
        self@.wf()
    }

    /// A column of `height` rows with random glyphs, unlit, its head above
    /// the screen.
    pub fn new(height: u16) -> (column: Self)
        ensures
            column@.is_new(height as int),
    {
        let mut chars: Vec<char> = Vec::new();
        let mut brightness: Vec<u32> = Vec::new();
        let mut row: u16 = 0;
        while row < height
            invariant
                row <= height,
                chars@.len() == row,
                brightness@.len() == row,
                forall|i: int| 0 <= i < row ==> is_glyph(#[trigger] chars@[i]),
                forall|i: int| 0 <= i < row ==> #[trigger] brightness@[i] == 0,
            decreases height - row,
        {
            chars.push(glyph_at(index_below(GLYPH_COUNT)));
            brightness.push(0);
            row = row + 1;
        }
        assert(-20 * UNIT == -20_000_000);
        let position = integer_between(-20 * (UNIT as i64), 0);
        let speed = integer_between(MIN_SPEED, MAX_SPEED);
        let length = MIN_TRAIL + index_below(MAX_TRAIL - MIN_TRAIL);
        MatrixColumn { chars, position, speed, length, brightness }
    }

    /// One tick: the head falls by the column's speed, rows in the band are
    /// lit and the others fade, now and then some glyphs change, and a head
    /// that has left the screen starts again from above.
    pub fn update(&mut self)
        ensures
            column_advanced(old(self)@, final(self)@),
    {
        proof {
            use_type_invariant(&*self);
        }
        let flicker = chance_of(1, 10);
        let draws = draw_glyphs(self.chars.len(), flicker);
        self.flicker_with(flicker, &draws);
        proof {
            use_type_invariant(&*self);
        }
        let rows = self.brightness.len();
        let head = self.position + self.speed;
        let brightness = self.faded_rows(head);
        let limit: i64 = ((rows + self.length) as i64) * (UNIT as i64);
        self.brightness = brightness;
        if head > limit {
            let position = integer_between(-30 * (UNIT as i64), -10 * (UNIT as i64));
            let speed = integer_between(MIN_SPEED, MAX_SPEED);
            let length = MIN_TRAIL + index_below(MAX_TRAIL - MIN_TRAIL);
            self.position = position;
            self.speed = speed;
            self.length = length;
        } else {
            self.position = head;
        }
    }

    /// The glyphs change as drawn: where `flicker` says that this is a tick
    /// in which glyphs change, each row for which a glyph was drawn gets
    /// that glyph, and every other row keeps its own. Nothing else changes.
    pub fn flicker_with(&mut self, flicker: bool, draws: &Vec<Option<usize>>)
        requires
            draws@.len() == old(self)@.glyphs.len(),
            forall|i: int|
                0 <= i < draws@.len() ==> (#[trigger] draws@[i] matches Some(g) ==> g
                    < GLYPH_COUNT),
        ensures
            final(self)@ == (ColumnView {
                glyphs: flickered(old(self)@.glyphs, flicker, draws@),
                ..old(self)@
            }),
    {
        proof {
            use_type_invariant(&*self);
        }
        let mut glyphs: Vec<char> = Vec::new();
        let mut row: usize = 0;
        while row < self.chars.len()
            invariant
                self@.wf(),
                draws@.len() == self@.glyphs.len(),
                forall|i: int|
                    0 <= i < draws@.len() ==> (#[trigger] draws@[i] matches Some(g) ==> g
                        < GLYPH_COUNT),
                row <= self.chars@.len(),
                glyphs@.len() == row,
                forall|i: int|
                    0 <= i < row ==> #[trigger] glyphs@[i] == flickered(
                        self@.glyphs,
                        flicker,
                        draws@,
                    )[i],
                forall|i: int| 0 <= i < row ==> is_glyph(#[trigger] glyphs@[i]),
            decreases self.chars@.len() - row,
        {
            let glyph = match draws[row] {
                Some(drawn) => if flicker {
                    glyph_at(drawn)
                } else {
                    self.chars[row]
                },
                None => self.chars[row],
            };
            glyphs.push(glyph);
            row = row + 1;
        }
        assert(glyphs@ =~= flickered(self@.glyphs, flicker, draws@));
        self.chars = glyphs;
    }

    /// The brightness of every row once the head stands at `head`.
    fn faded_rows(&self, head: i64) -> (rows: Vec<u32>)
        requires
            head == self@.position + self@.speed,
        ensures
            rows@ == self@.next_brightness(),
            forall|i: int| 0 <= i < rows@.len() ==> #[trigger] rows@[i] <= UNIT,
    {
        proof {
            use_type_invariant(self);
        }
        let mut rows: Vec<u32> = Vec::new();
        let mut row: usize = 0;
        while row < self.brightness.len()
            invariant
                self@.wf(),
                head == self@.position + self@.speed,
                row <= self.brightness@.len(),
                rows@.len() == row,
                forall|i: int| 0 <= i < row ==> #[trigger] rows@[i] == self@.next_brightness()[i],
                forall|i: int| 0 <= i < row ==> #[trigger] rows@[i] <= UNIT,
            decreases self.brightness@.len() - row,
        {
            rows.push(fade(self.brightness[row], row, head, self.length));
            row = row + 1;
        }
        assert(rows@ =~= self@.next_brightness());
        rows
    }

    /// Puts the head at `position`, with this speed and this length of
    /// trail, where the three are such as a column can have; glyphs and
    /// brightness stay. Answers whether it did.
    pub fn restart_with(&mut self, position: i64, speed: i64, length: usize) -> (done: bool)
        ensures
            final(self)@.wf(),
            done == (ColumnView { position: position as int, speed: speed as int, length: length as int, ..old(self)@ }).wf(),
            done ==> final(self)@ == (ColumnView {
                position: position as int,
                speed: speed as int,
                length: length as int,
                ..old(self)@
            }),
            !done ==> final(self)@ == old(self)@,
    {
        proof {
            use_type_invariant(&*self);
        }
        let rows = self.chars.len();
        let lowest: i64 = -30 * (UNIT as i64);
        if !(MIN_TRAIL <= length && length < MAX_TRAIL) {
            return false;
        }
        let highest: i64 = ((rows + length) as i64) * (UNIT as i64);
        if MIN_SPEED <= speed && speed < MAX_SPEED && lowest <= position && position <= highest {
            self.position = lowest;
            self.speed = speed;
            self.length = length;
            self.position = position;
            true
        } else {
            false
        }
    }

    /// Where the head is, in fixed-point rows from the top.
    pub fn position(&self) -> (position: i64)
        ensures
            position == self@.position,
    {
        self.position
    }

    /// How far the head falls in a tick, in fixed-point rows.
    pub fn speed(&self) -> (speed: i64)
        ensures
            speed == self@.speed,
            MIN_SPEED <= speed < MAX_SPEED,
    {
        proof {
            use_type_invariant(self);
        }
        self.speed
    }

    /// The length of the trail, in rows.
    pub fn length(&self) -> (length: usize)
        ensures
            length == self@.length,
            MIN_TRAIL <= length < MAX_TRAIL,
    {
        proof {
            use_type_invariant(self);
        }
        self.length
    }

    /// The number of rows.
    pub fn rows(&self) -> (n: usize)
        ensures
            n == self@.glyphs.len(),
            n <= MAX_ROWS,
    {
        proof {
            use_type_invariant(self);
        }
        self.chars.len()
    }

    /// The glyph at `row`.
    pub fn glyph(&self, row: usize) -> (c: char)
        requires
            row < self@.glyphs.len(),
        ensures
            c == self@.glyphs[row as int],
            is_glyph(c),
    {
        proof {
            use_type_invariant(self);
        }
        self.chars[row]
    }

    /// The brightness of `row`, between nothing and [`UNIT`].
    pub fn brightness(&self, row: usize) -> (b: u32)
        requires
            row < self@.brightness.len(),
        ensures
            b == self@.brightness[row as int],
            b <= UNIT,
    {
        proof {
            use_type_invariant(self);
        }
        self.brightness[row]
    }
}

} // verus!
