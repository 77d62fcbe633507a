//! The show that runs while a new vault is made.

use crate::matrix::{
    encrypting_message, rain_advanced, AnimationPhase, AnimationView, MatrixAnimation,
};
use crate::rain::ColumnView;
use vstd::prelude::*;

verus! {

/// How long the show runs, in milliseconds.
pub const SHOW_MILLIS: u64 = 2_000;

/// What a show is, as plain values. Times are milliseconds on the clock of
/// the show's animation.
pub struct ShowView {
    pub animation: AnimationView,
    /// When the show began.
    pub started_at: u64,
    /// Whether the show is over.
    pub over: bool,
}

impl ShowView {
    /// Whether a tick at `now` goes on with the show: not once it is over,
    /// not when asked to skip, and not once it has run for [`SHOW_MILLIS`].
    pub open spec fn goes_on(self, now: u64, skip: bool) -> bool {
        !self.over && !skip && now - self.started_at < SHOW_MILLIS
    }

    /// The show after a tick at `now` that leaves the rain as `rain`: while
    /// it goes on, the animation ticks and types one character more.
    pub open spec fn after_tick(self, now: u64, skip: bool, rain: Seq<ColumnView>) -> ShowView {
        if self.goes_on(now, skip) {
            ShowView {
                animation: (AnimationView {
                    columns: rain,
                    phase: self.animation.phase_after(now),
                    typed: self.animation.typed_after(),
                    completed_at: self.animation.completed_after(now),
                    ..self.animation
                }).typed_ahead(),
                ..self
            }
        } else {
            ShowView { over: true, ..self }
        }
    }

    /// Whether a tick at `now` takes the show `self` to `after` and answers
    /// `shows`.
    pub open spec fn ticks_to(self, after: ShowView, now: u64, skip: bool, shows: bool) -> bool {
        &&& shows == self.goes_on(now, skip)
        &&& after == self.after_tick(now, skip, after.animation.columns)
        &&& if shows {
            rain_advanced(self.animation.columns, after.animation.columns)
        } else {
            after.animation.columns == self.animation.columns
        }
    }

    /// Whether the show has just begun, at `now`.
    pub open spec fn begins_at(self, now: u64, width: int) -> bool {
        &&& self.animation.phase == AnimationPhase::Decoding
        &&& self.animation.message == encrypting_message()
        &&& self.animation.typed == 0
        &&& self.animation.completed_at is None
        &&& self.animation.columns.len() == width
        &&& self.started_at == now
        &&& !self.over
    }
}

/// The show with its animation.
pub struct EncryptingShow {
    animation: MatrixAnimation,
    started_at: u64,
    over: bool,
}

impl View for EncryptingShow {
    type V = ShowView;

    closed spec fn view(&self) -> ShowView {
        ShowView { animation: self.animation@, started_at: self.started_at, over: self.over }
    }
}

impl EncryptingShow {
    /// A show over `width` columns of `height` rows that begins at the
    /// present moment of its animation's clock.
    pub fn new(width: u16, height: u16) -> (show: Self)
        ensures
            exists|now: u64| show@.begins_at(now, width as int),
    {
        let mut animation = MatrixAnimation::new(width, height);
        animation.start_encrypting();
        let now = animation.elapsed_millis();
        let show = EncryptingShow { animation, started_at: now, over: false };
        assert(show@.begins_at(now, width as int));
        show
    }

    /// A show over `width` columns of `height` rows that begins at `now`.
    pub fn new_at(width: u16, height: u16, now: u64) -> (show: Self)
        ensures
            show@.begins_at(now, width as int),
    {
        let mut animation = MatrixAnimation::new(width, height);
        animation.start_encrypting();
        EncryptingShow { animation, started_at: now, over: false }
    }

    /// One tick at the present moment of the animation's clock. See
    /// [`EncryptingShow::tick_at`].
    pub fn tick(&mut self, skip: bool) -> (shows: bool)
        ensures
            exists|now: u64| old(self)@.ticks_to(final(self)@, now, skip, shows),
    {
        let now = self.animation.elapsed_millis();
        self.tick_at(now, skip)
    }

    /// One tick at `now`; `skip` says that the key that ends the show was
    /// pressed. Answers whether to draw the animation and tick again.
    pub fn tick_at(&mut self, now: u64, skip: bool) -> (shows: bool)
        ensures
            old(self)@.ticks_to(final(self)@, now, skip, shows),
    {
        if self.over || skip || (now >= self.started_at && now - self.started_at >= SHOW_MILLIS) {
            self.over = true;
            false
        } else {
            self.animation.update_at(now);
            self.animation.type_ahead();
            true
        }
    }

    /// The animation, to draw it.
    pub fn animation(&self) -> (animation: &MatrixAnimation)
        ensures
            animation@ == self@.animation,
    {
        &self.animation
    }
}

} // verus!
