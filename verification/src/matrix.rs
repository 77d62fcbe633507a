//! The animation behind a gate: the rain and the phase it is shown in.

use crate::clock::millis_since;
use crate::rain::{column_advanced, ColumnView, MatrixColumn};
use std::time::Instant;
use vstd::prelude::*;
use vstd::string::{StrSliceExecFns, StringExecFns};

verus! {

/// How long the fully typed message stays before success is declared, in
/// milliseconds.
pub const HOLD_MILLIS: u64 = 3_000;

/// What the animation shows.
#[derive(Clone, Copy, Debug, PartialEq, Eq, Structural)]
pub enum AnimationPhase {
    /// Rain only: no check has started.
    MatrixRain,
    /// The credential check is under way.
    Authenticating,
    /// The check succeeded; the message is being typed out and held.
    Decoding,
    /// The success of the check has been shown to its end.
    Success,
    /// The check failed.
    Failed,
}

/// The message shown while the credential check is under way.
pub open spec fn scanning_message() -> Seq<char> {
    "BIOMETRIC SCAN INITIATED..."@
}

/// The message typed out after a successful check.
pub open spec fn granted_message() -> Seq<char> {
    "ACCESS GRANTED - DECRYPTING JOURNAL"@
}

/// The message shown after a failed check.
pub open spec fn denied_message() -> Seq<char> {
    "ACCESS DENIED"@
}

/// The message typed out while a new vault is made.
pub open spec fn encrypting_message() -> Seq<char> {
    "ENCRYPTING VAULT - SECURING MEMORIES"@
}

/// What an animation is, as plain values. Times are milliseconds on the
/// animation's own clock.
pub struct AnimationView {
    pub columns: Seq<ColumnView>,
    pub phase: AnimationPhase,
    pub message: Seq<char>,
    pub typed: nat,
    pub completed_at: Option<u64>,
}

impl AnimationView {
    /// Whether `self` is what a tick at `now` makes of `before`.
    pub open spec fn is_tick_of(self, before: AnimationView, now: u64) -> bool {
        &&& self.capped()
        &&& rain_advanced(before.columns, self.columns)
        &&& self.message == before.message
        &&& self.typed == before.typed_after()
        &&& self.completed_at == before.completed_after(now)
        &&& self.phase == before.phase_after(now)
    }

    /// The part of the message that has been typed.
    pub open spec fn typed_part(self) -> Seq<char> {
        if self.typed < self.message.len() {
            self.message.subrange(0, self.typed as int)
        } else {
            self.message.subrange(0, self.message.len() as int)
        }
    }

    /// Whether the whole message has been typed out, and no more.
    pub open spec fn fully_typed(self) -> bool {
        self.typed == self.message.len()
    }

    /// Whether the typed count is capped: while decoding, no more characters
    /// count as typed than the message has.
    pub open spec fn capped(self) -> bool {
        self.phase == AnimationPhase::Decoding ==> self.typed <= self.message.len()
    }

    /// The typed count with one character more, capped at the length of the
    /// message.
    pub open spec fn one_more(self) -> nat {
        if self.typed < self.message.len() {
            self.typed + 1
        } else {
            self.message.len()
        }
    }

    /// The animation with one more character typed, capped at the length of
    /// the message.
    pub open spec fn typed_ahead(self) -> AnimationView {
        AnimationView { typed: self.one_more(), ..self }
    }

    /// The number of typed characters after a tick: while decoding one more,
    /// capped at the length of the message.
    pub open spec fn typed_after(self) -> nat {
        if self.phase == AnimationPhase::Decoding {
            self.one_more()
        } else {
            self.typed
        }
    }

    /// The moment typing was seen complete, after a tick at `now`: the first
    /// tick that finds the message fully typed marks it.
    pub open spec fn completed_after(self, now: u64) -> Option<u64> {
        if self.phase == AnimationPhase::Decoding && self.fully_typed()
            && self.completed_at is None {
            Some(now)
        } else {
            self.completed_at
        }
    }

    /// The phase after a tick at `now`: decoding ends in success once the
    /// whole message is typed and more than [`HOLD_MILLIS`] have gone by
    /// since it was seen so.
    pub open spec fn phase_after(self, now: u64) -> AnimationPhase {
        if self.phase == AnimationPhase::Decoding && self.fully_typed() && held_long_enough(
            self.completed_after(now),
            now,
        ) {
            AnimationPhase::Success
        } else {
            self.phase
        }
    }
}

/// A tick ends decoding in success only where it finds exactly the whole
/// message typed and a mark that is older than the hold; it sets the mark
/// only where it finds the whole message typed, and never moves a mark; while
/// a character is still to be typed it types one and does nothing else; and
/// it never leaves more characters typed than the message has.
pub proof fn lemma_success_needs_typing_and_hold(animation: AnimationView, now: u64)
    requires
        animation.phase == AnimationPhase::Decoding,
    ensures
        animation.phase_after(now) == AnimationPhase::Success || animation.phase_after(now)
            == AnimationPhase::Decoding,
        animation.phase_after(now) == AnimationPhase::Success ==> {
            &&& animation.typed == animation.message.len()
            &&& animation.typed_after() == animation.typed
            &&& animation.completed_at matches Some(mark)
            &&& now - mark > HOLD_MILLIS
        },
        animation.completed_at is Some ==> animation.completed_after(now) == animation.completed_at,
        animation.completed_at is None && animation.completed_after(now) is Some ==> animation.typed
            == animation.message.len() && animation.completed_after(now) == Some(now),
        animation.typed < animation.message.len() ==> {
            &&& animation.typed_after() == animation.typed + 1
            &&& animation.completed_after(now) == animation.completed_at
            &&& animation.phase_after(now) == AnimationPhase::Decoding
        },
        animation.typed_after() <= animation.message.len(),
        animation.typed_ahead().typed <= animation.message.len(),
{
}

/// Whether `after` is what one tick makes of the rain `before`.
pub open spec fn rain_advanced(before: Seq<ColumnView>, after: Seq<ColumnView>) -> bool {
    &&& after.len() == before.len()
    &&& forall|i: int| 0 <= i < before.len() ==> column_advanced(#[trigger] before[i], after[i])
}

/// Whether at `now` more than [`HOLD_MILLIS`] have gone by since the mark.
pub open spec fn held_long_enough(mark: Option<u64>, now: u64) -> bool {
    mark matches Some(at) && now - at > HOLD_MILLIS
}

/// The rain, the phase, and the message with its typing progress.
pub struct MatrixAnimation {
    columns: Vec<MatrixColumn>,
    phase: AnimationPhase,
    start_time: Instant,
    message: String,
    decoded_chars: usize,
    decode_complete_time: Option<u64>,
}

impl View for MatrixAnimation {
    type V = AnimationView;

    closed spec fn view(&self) -> AnimationView {
        AnimationView {
            columns: Seq::new(self.columns@.len(), |i: int| self.columns@[i]@),
            phase: self.phase,
            message: self.message@,
            typed: self.decoded_chars as nat,
            completed_at: self.decode_complete_time,
        }
    }
}

impl MatrixAnimation {
    /// An animation of `width` columns of `height` rows, showing rain only,
    /// with its clock started.
    pub fn new(width: u16, height: u16) -> (animation: Self)
        ensures
            animation@.columns.len() == width,
            forall|i: int| 0 <= i < width ==> (#[trigger] animation@.columns[i]).is_new(height as int),
            animation@.phase == AnimationPhase::MatrixRain,
            animation@.message == Seq::<char>::empty(),
            animation@.typed == 0,
            animation@.completed_at is None,
            animation@.capped(),
    {
        let mut columns: Vec<MatrixColumn> = Vec::new();
        let mut built: u16 = 0;
        while built < width
            invariant
                built <= width,
                columns@.len() == built,
                forall|i: int| 0 <= i < built ==> (#[trigger] columns@[i])@.is_new(height as int),
            decreases width - built,
        {
            columns.push(MatrixColumn::new(height));
            built = built + 1;
        }
        MatrixAnimation {
            columns,
            phase: AnimationPhase::MatrixRain,
            start_time: Instant::now(),
            message: String::new(),
            decoded_chars: 0,
            decode_complete_time: None,
        }
    }

    /// One tick at the present moment of the animation's clock. See
    /// [`MatrixAnimation::update_at`].
    pub fn update(&mut self)
        ensures
            exists|now: u64| final(self)@.is_tick_of(old(self)@, now),
    {
        let now = millis_since(&self.start_time);
        self.update_at(now);
    }

    /// One tick at `now`: every column advances, and while decoding the next
    /// character is typed, the moment typing is complete is marked, and the
    /// phase becomes success once the hold is over.
    pub fn update_at(&mut self, now: u64)
        ensures
            final(self)@.is_tick_of(old(self)@, now),
    {
        self.advance_rain();
        if self.phase == AnimationPhase::Decoding {
            let length = self.message.as_str().unicode_len();
            if self.decoded_chars < length {
                self.decoded_chars = self.decoded_chars + 1;
            } else if self.decoded_chars > length {
                self.decoded_chars = length;
            } else {
                if self.decode_complete_time.is_none() {
                    self.decode_complete_time = Some(now);
                }
                if let Some(mark) = self.decode_complete_time {
                    if now > mark && now - mark > HOLD_MILLIS {
                        self.phase = AnimationPhase::Success;
                    }
                }
            }
        }
    }

    /// Every column advances by one tick.
    fn advance_rain(&mut self)
        ensures
            rain_advanced(old(self)@.columns, final(self)@.columns),
            final(self)@ == (AnimationView { columns: final(self)@.columns, ..old(self)@ }),
    {
        let mut index: usize = 0;
        while index < self.columns.len()
            invariant
                index <= self.columns@.len(),
                self.columns@.len() == old(self).columns@.len(),
                self.phase == old(self).phase,
                self.message == old(self).message,
                self.decoded_chars == old(self).decoded_chars,
                self.decode_complete_time == old(self).decode_complete_time,
                forall|i: int|
                    0 <= i < index ==> column_advanced(
                        #[trigger] old(self).columns@[i]@,
                        self.columns@[i]@,
                    ),
                forall|i: int|
                    index <= i < self.columns@.len() ==> #[trigger] self.columns@[i] == old(
                        self,
                    ).columns@[i],
            decreases self.columns@.len() - index,
        {
            self.columns[index].update();
            index = index + 1;
        }
    }

    /// The milliseconds gone by on the animation's clock.
    pub fn elapsed_millis(&self) -> (millis: u64) {
        millis_since(&self.start_time)
    }

    /// The message.
    pub fn message(&self) -> (message: &str)
        ensures
            message@ == self@.message,
    {
        self.message.as_str()
    }

    /// The number of characters of the message that have been typed.
    pub fn decoded_chars(&self) -> (typed: usize)
        ensures
            typed == self@.typed,
    {
        self.decoded_chars
    }

    /// The part of the message that has been typed.
    pub fn typed_message(&self) -> (typed: &str)
        ensures
            typed@ == self@.typed_part(),
    {
        let length = self.message.as_str().unicode_len();
        let shown = if self.decoded_chars < length {
            self.decoded_chars
        } else {
            length
        };
        self.message.as_str().substring_char(0, shown)
    }

    /// The number of columns.
    pub fn width(&self) -> (width: usize)
        ensures
            width == self@.columns.len(),
    {
        self.columns.len()
    }

    /// The column at `index`.
    pub fn column(&self, index: usize) -> (column: &MatrixColumn)
        requires
            index < self@.columns.len(),
        ensures
            column@ == self@.columns[index as int],
    {
        &self.columns[index]
    }

    /// The phase the animation is in.
    pub fn phase(&self) -> (phase: AnimationPhase)
        ensures
            phase == self@.phase,
    {
        self.phase
    }

    /// The credential check begins.
    pub fn start_authentication(&mut self)
        ensures
            final(self)@ == (AnimationView {
                phase: AnimationPhase::Authenticating,
                message: scanning_message(),
                ..old(self)@
            }),
            final(self)@.capped(),
    {
        self.phase = AnimationPhase::Authenticating;
        self.message = String::from_str("BIOMETRIC SCAN INITIATED...");
    }

    /// The credential check succeeded: the message is typed out from its
    /// first character, and no moment is marked yet at which it was seen
    /// fully typed.
    pub fn authentication_success(&mut self)
        ensures
            final(self)@ == (AnimationView {
                phase: AnimationPhase::Decoding,
                message: granted_message(),
                typed: 0,
                completed_at: None,
                ..old(self)@
            }),
            final(self)@.capped(),
    {
        self.phase = AnimationPhase::Decoding;
        self.message = String::from_str("ACCESS GRANTED - DECRYPTING JOURNAL");
        self.decoded_chars = 0;
        self.decode_complete_time = None;
    }

    /// A new vault is being made: its message is typed out from the first
    /// character, and no moment is marked yet at which it was seen fully
    /// typed.
    pub fn start_encrypting(&mut self)
        ensures
            final(self)@ == (AnimationView {
                phase: AnimationPhase::Decoding,
                message: encrypting_message(),
                typed: 0,
                completed_at: None,
                ..old(self)@
            }),
            final(self)@.capped(),
    {
        self.phase = AnimationPhase::Decoding;
        self.message = String::from_str("ENCRYPTING VAULT - SECURING MEMORIES");
        self.decoded_chars = 0;
        self.decode_complete_time = None;
    }

    /// One more character of the message is typed, unless it is fully typed:
    /// the typed count is capped at the length of the message.
    pub fn type_ahead(&mut self)
        ensures
            final(self)@ == old(self)@.typed_ahead(),
            final(self)@.typed <= final(self)@.message.len(),
    {
        let length = self.message.as_str().unicode_len();
        if self.decoded_chars < length {
            self.decoded_chars = self.decoded_chars + 1;
        } else {
            self.decoded_chars = length;
        }
    }

    /// The credential check failed.
    pub fn authentication_failed(&mut self)
        ensures
            final(self)@ == (AnimationView {
                phase: AnimationPhase::Failed,
                message: denied_message(),
                ..old(self)@
            }),
            final(self)@.capped(),
    {
        self.phase = AnimationPhase::Failed;
        self.message = String::from_str("ACCESS DENIED");
    }
}

} // verus!
