//! A gate: a credential check shown as a timed sequence of phases.
//!
//! The embedding program runs the check in the background and, once per
//! tick, tells it what it has seen: whether the check has finished and how,
//! and whether the cancellation key was pressed. It answers
//! whether to go on or with which verdict to stop.

use crate::matrix::{
    denied_message, granted_message, rain_advanced, scanning_message, AnimationPhase,
    AnimationView, MatrixAnimation, HOLD_MILLIS,
};
use crate::rain::ColumnView;
use vstd::prelude::*;

verus! {

/// How long the check is shown as under way before anyone looks at its
/// result, in milliseconds.
pub const MIN_AUTH_MILLIS: u64 = 3_000;

/// How long a failure is shown before the verdict is given, in
/// milliseconds.
pub const FAILURE_MILLIS: u64 = 2_000;

/// The length of a tick, and the longest wait for a key, in milliseconds.
pub const TICK_MILLIS: u64 = 50;

/// What the background check has come to.
#[derive(Clone, Copy, Debug, PartialEq, Eq, Structural)]
pub enum AuthPoll {
    /// The check is still running.
    Pending,
    /// The check has finished and said yes.
    Granted,
    /// The check has finished and said no, or has failed.
    Denied,
}

/// What the check has come to, when it was `seen` so before and the
/// background work is looked at again: work that has not finished leaves it
/// as it was seen, work that finished with `true` grants, and work that
/// finished in any other way, with `false` or with an error, denies.
pub open spec fn polled(seen: AuthPoll, finished: Option<Result<bool, String>>) -> AuthPoll {
    match finished {
        None => seen,
        Some(Ok(true)) => AuthPoll::Granted,
        Some(_) => AuthPoll::Denied,
    }
}

/// What the check has come to: `seen` where the background work has not
/// finished, and else what its result says.
pub fn poll_after(seen: AuthPoll, finished: Option<Result<bool, String>>) -> (poll: AuthPoll)
    ensures
        poll == polled(seen, finished),
{
    match finished {
        None => seen,
        Some(Ok(true)) => AuthPoll::Granted,
        Some(_) => AuthPoll::Denied,
    }
}

/// What a gate asks of the loop that drives it.
#[derive(Clone, Copy, Debug, PartialEq, Eq, Structural)]
pub enum GateAction {
    /// Draw, wait a tick, and tick again.
    Continue,
    /// Stop, and hand this verdict to the caller.
    Finish(bool),
}

/// `now`, or `last` where the clock appears to have run backwards.
pub open spec fn not_before(now: u64, last: u64) -> u64 {
    if now < last {
        last
    } else {
        now
    }
}

/// What a gate is, as plain values. Times are milliseconds on the clock of
/// its animation.
pub struct GateView {
    pub animation: AnimationView,
    /// When the check began to be shown.
    pub entered_at: u64,
    /// The result of the check, once it has been taken note of.
    pub verdict: Option<bool>,
    /// When the result was taken note of.
    pub decided_at: u64,
    /// The latest tick.
    pub last_tick: u64,
    /// The verdict of a gate that has stopped.
    pub outcome: Option<bool>,
}

impl GateView {
    /// What holds of every gate.
    pub open spec fn wf(self) -> bool {
        let phase = self.animation.phase;
        &&& phase != AnimationPhase::MatrixRain
        &&& (self.verdict is None) == (phase == AnimationPhase::Authenticating)
        &&& (self.verdict == Some(true)) == (phase == AnimationPhase::Decoding || phase
            == AnimationPhase::Success)
        &&& (self.verdict == Some(false)) == (phase == AnimationPhase::Failed)
        &&& self.entered_at <= self.last_tick
        &&& self.verdict is Some ==> self.entered_at + MIN_AUTH_MILLIS <= self.decided_at
            <= self.last_tick
        &&& self.animation.completed_at matches Some(mark) ==> {
            &&& self.verdict == Some(true)
            &&& self.decided_at <= mark <= self.last_tick
            &&& self.animation.fully_typed()
        }
        &&& phase == AnimationPhase::Decoding ==> self.animation.typed
            <= self.animation.message.len()
        &&& phase == AnimationPhase::Success ==> (self.animation.completed_at matches Some(mark)
            && mark + HOLD_MILLIS < self.last_tick)
        &&& (self.outcome == Some(true)) == (phase == AnimationPhase::Success)
    }

    /// What a tick at `now` answers.
    pub open spec fn action_at(self, now: u64, auth: AuthPoll, cancel: bool) -> GateAction {
        let at = not_before(now, self.last_tick);
        if let Some(verdict) = self.outcome {
            GateAction::Finish(verdict)
        } else {
            match self.animation.phase {
                AnimationPhase::MatrixRain => GateAction::Continue,
                AnimationPhase::Authenticating => if cancel {
                    GateAction::Finish(false)
                } else {
                    GateAction::Continue
                },
                AnimationPhase::Decoding => if cancel {
                    GateAction::Finish(false)
                } else if self.animation.phase_after(at) == AnimationPhase::Success {
                    GateAction::Finish(true)
                } else {
                    GateAction::Continue
                },
                AnimationPhase::Failed => if at - self.decided_at >= FAILURE_MILLIS {
                    GateAction::Finish(false)
                } else {
                    GateAction::Continue
                },
                AnimationPhase::Success => GateAction::Finish(true),
            }
        }
    }

    /// Whether a tick at `at` that finds the check under way takes note of
    /// its result: not before the check has been shown for
    /// [`MIN_AUTH_MILLIS`], and not while it is pending.
    pub open spec fn takes_note(self, at: u64, auth: AuthPoll) -> bool {
        at - self.entered_at >= MIN_AUTH_MILLIS && auth != AuthPoll::Pending
    }

    /// Whether a tick at `now` advances the rain: a gate that stops, or has
    /// stopped, leaves it as it is.
    pub open spec fn rains_at(self, now: u64, cancel: bool) -> bool {
        let at = not_before(now, self.last_tick);
        self.outcome is None && match self.animation.phase {
            AnimationPhase::MatrixRain => true,
            AnimationPhase::Authenticating => !cancel,
            AnimationPhase::Decoding => !cancel,
            AnimationPhase::Failed => at - self.decided_at < FAILURE_MILLIS,
            AnimationPhase::Success => false,
        }
    }

    /// What a tick at `now` that leaves the rain as `rain` makes of this
    /// gate.
    pub open spec fn after_tick(
        self,
        now: u64,
        auth: AuthPoll,
        cancel: bool,
        rain: Seq<ColumnView>,
    ) -> GateView {
        let at = not_before(now, self.last_tick);
        let moved = GateView { last_tick: at, ..self };
        let rained = AnimationView { columns: rain, ..self.animation };
        if self.outcome is Some {
            self
        } else {
            match self.animation.phase {
                AnimationPhase::MatrixRain => GateView { animation: rained, ..moved },
                AnimationPhase::Authenticating => if cancel {
                    GateView { outcome: Some(false), ..moved }
                } else if !self.takes_note(at, auth) {
                    GateView { animation: rained, ..moved }
                } else if auth == AuthPoll::Granted {
                    GateView {
                        animation: AnimationView {
                            phase: AnimationPhase::Decoding,
                            message: granted_message(),
                            typed: 0,
                            completed_at: None,
                            ..rained
                        },
                        verdict: Some(true),
                        decided_at: at,
                        ..moved
                    }
                } else {
                    GateView {
                        animation: AnimationView {
                            phase: AnimationPhase::Failed,
                            message: denied_message(),
                            ..rained
                        },
                        verdict: Some(false),
                        decided_at: at,
                        ..moved
                    }
                },
                AnimationPhase::Decoding => if cancel {
                    GateView { outcome: Some(false), ..moved }
                } else {
                    GateView {
                        animation: AnimationView {
                            phase: self.animation.phase_after(at),
                            typed: self.animation.typed_after(),
                            completed_at: self.animation.completed_after(at),
                            ..rained
                        },
                        outcome: if self.animation.phase_after(at) == AnimationPhase::Success {
                            Some(true)
                        } else {
                            None
                        },
                        ..moved
                    }
                },
                AnimationPhase::Failed => if at - self.decided_at >= FAILURE_MILLIS {
                    GateView { outcome: Some(false), ..moved }
                } else {
                    GateView { animation: rained, ..moved }
                },
                AnimationPhase::Success => GateView { outcome: Some(true), ..moved },
            }
        }
    }

    /// Whether a tick at `now` takes this gate to `after` and answers
    /// `action`.
    pub open spec fn ticks_to(
        self,
        after: GateView,
        now: u64,
        auth: AuthPoll,
        cancel: bool,
        action: GateAction,
    ) -> bool {
        &&& after == self.after_tick(now, auth, cancel, after.animation.columns)
        &&& action == self.action_at(now, auth, cancel)
        &&& if self.rains_at(now, cancel) {
            rain_advanced(self.animation.columns, after.animation.columns)
        } else {
            after.animation.columns == self.animation.columns
        }
    }

    /// Whether this gate has just begun to show the check, at `now`.
    pub open spec fn begins_at(self, now: u64, width: int) -> bool {
        &&& self.animation.phase == AnimationPhase::Authenticating
        &&& self.animation.message == scanning_message()
        &&& self.animation.typed == 0
        &&& self.animation.completed_at is None
        &&& self.animation.columns.len() == width
        &&& self.entered_at == now
        &&& self.last_tick == now
        &&& self.verdict is None
        &&& self.outcome is None
    }
}

/// Whether a tick may take the phase `before` to the phase `after`: the
/// phase stays, or moves one step along rain, check, then either typing and
/// success or failure.
pub open spec fn phase_follows(before: AnimationPhase, after: AnimationPhase) -> bool {
    ||| after == before
    ||| before == AnimationPhase::MatrixRain && after == AnimationPhase::Authenticating
    ||| before == AnimationPhase::Authenticating && after == AnimationPhase::Decoding
    ||| before == AnimationPhase::Authenticating && after == AnimationPhase::Failed
    ||| before == AnimationPhase::Decoding && after == AnimationPhase::Success
}

/// What one tick is given, and the rain it leaves.
pub struct Tick {
    pub now: u64,
    pub auth: AuthPoll,
    pub cancel: bool,
    pub rain: Seq<ColumnView>,
}

/// What the ticks `ticks`, in their order, make of `gate`.
pub open spec fn after_ticks(gate: GateView, ticks: Seq<Tick>) -> GateView
    decreases ticks.len(),
{
    if ticks.len() == 0 {
        gate
    } else {
        let tick = ticks.last();
        after_ticks(gate, ticks.drop_last()).after_tick(tick.now, tick.auth, tick.cancel, tick.rain)
    }
}

/// A tick keeps a gate well formed.
pub proof fn lemma_tick_keeps_gate_well_formed(
    gate: GateView,
    now: u64,
    auth: AuthPoll,
    cancel: bool,
    rain: Seq<ColumnView>,
)
    requires
        gate.wf(),
    ensures
        gate.after_tick(now, auth, cancel, rain).wf(),
{
}

/// The phases follow one another in order, whatever the check does: from
/// the check under way to typing only on a granted check, to failure only on
/// a denied one, and to success only from typing. The result of the check
/// is taken note of once, and never while the check is pending.
pub proof fn lemma_phases_follow_in_order(
    gate: GateView,
    now: u64,
    auth: AuthPoll,
    cancel: bool,
    rain: Seq<ColumnView>,
)
    requires
        gate.wf(),
    ensures
        ({
            let after = gate.after_tick(now, auth, cancel, rain);
            let before_phase = gate.animation.phase;
            let after_phase = after.animation.phase;
            &&& phase_follows(before_phase, after_phase)
            &&& after_phase != before_phase && after_phase == AnimationPhase::Decoding ==> auth
                == AuthPoll::Granted
            &&& after_phase != before_phase && after_phase == AnimationPhase::Failed ==> auth
                == AuthPoll::Denied
            &&& after.verdict != gate.verdict ==> gate.verdict is None && auth != AuthPoll::Pending
                && after.verdict == Some(auth == AuthPoll::Granted)
        }),
{
}

/// The verdict a tick stops with: `true` only where the check was granted
/// and its success shown to the end, and `false` whenever the cancellation
/// key is seen while the check is under way or its success is being shown.
pub proof fn lemma_verdict_is_that_of_the_check(
    gate: GateView,
    now: u64,
    auth: AuthPoll,
    cancel: bool,
    rain: Seq<ColumnView>,
)
    requires
        gate.wf(),
    ensures
        ({
            let after = gate.after_tick(now, auth, cancel, rain);
            let action = gate.action_at(now, auth, cancel);
            &&& action == GateAction::Finish(true) ==> after.verdict == Some(true)
                && after.animation.phase == AnimationPhase::Success
            &&& action matches GateAction::Finish(verdict) ==> after.outcome == Some(verdict)
            &&& action == GateAction::Continue ==> after.outcome is None
            &&& gate.outcome is None && cancel && (gate.animation.phase
                == AnimationPhase::Authenticating || gate.animation.phase
                == AnimationPhase::Decoding) ==> action == GateAction::Finish(false)
            &&& gate.outcome matches Some(verdict) ==> action == GateAction::Finish(verdict)
                && after == gate
        }),
{
}

/// The check is shown for at least [`MIN_AUTH_MILLIS`] before its result is
/// taken note of, however early the result is there.
pub proof fn lemma_check_is_shown_for_minimum(
    gate: GateView,
    now: u64,
    auth: AuthPoll,
    cancel: bool,
    rain: Seq<ColumnView>,
)
    requires
        gate.wf(),
    ensures
        ({
            let after = gate.after_tick(now, auth, cancel, rain);
            &&& after.entered_at == gate.entered_at
            &&& gate.animation.phase == AnimationPhase::Authenticating && after.animation.phase
                != AnimationPhase::Authenticating ==> after.last_tick - gate.entered_at
                >= MIN_AUTH_MILLIS && after.decided_at == after.last_tick
            &&& after.verdict is Some ==> after.decided_at - after.entered_at >= MIN_AUTH_MILLIS
        }),
{
}

/// Success comes more than [`HOLD_MILLIS`] after the message was seen fully
/// typed: the moment is marked by the first tick that finds the message
/// fully typed, it is never moved, and only a tick later than it by more
/// than the hold ends the typing in success.
pub proof fn lemma_success_is_held(
    gate: GateView,
    now: u64,
    auth: AuthPoll,
    cancel: bool,
    rain: Seq<ColumnView>,
)
    requires
        gate.wf(),
    ensures
        ({
            let after = gate.after_tick(now, auth, cancel, rain);
            &&& gate.animation.completed_at is Some ==> after.animation.completed_at
                == gate.animation.completed_at
            &&& gate.animation.completed_at is None && after.animation.completed_at is Some ==> {
                &&& gate.animation.phase == AnimationPhase::Decoding
                &&& gate.animation.fully_typed()
                &&& after.animation.completed_at == Some(after.last_tick)
            }
            &&& gate.animation.phase != AnimationPhase::Success && after.animation.phase
                == AnimationPhase::Success ==> {
                &&& after.animation.fully_typed()
                &&& after.animation.completed_at matches Some(mark)
                &&& after.last_tick - mark > HOLD_MILLIS
            }
        }),
{
}

/// Whether one of `ticks` saw the check as `auth`.
pub open spec fn some_tick_saw(ticks: Seq<Tick>, auth: AuthPoll) -> bool {
    exists|i: int| 0 <= i < ticks.len() && (#[trigger] ticks[i]).auth == auth
}

/// Whether one of `ticks` saw the cancellation key.
pub open spec fn some_tick_cancelled(ticks: Seq<Tick>) -> bool {
    exists|i: int| 0 <= i < ticks.len() && (#[trigger] ticks[i]).cancel
}

/// Over any run of a gate from its beginning: it stays well formed; it
/// stops with `true` only if some tick saw the check granted, and then more
/// than the minimum showing of the check and the hold of its success have
/// gone by; and it stops with `false` only if some tick saw the check
/// denied or the cancellation key.
pub proof fn lemma_gate_runs(start: GateView, ticks: Seq<Tick>)
    requires
        start.wf(),
        start.verdict is None,
        start.outcome is None,
    ensures
        ({
            let end = after_ticks(start, ticks);
            &&& end.wf()
            &&& end.entered_at == start.entered_at
            &&& end.verdict == Some(true) ==> some_tick_saw(ticks, AuthPoll::Granted)
            &&& end.verdict == Some(false) ==> some_tick_saw(ticks, AuthPoll::Denied)
            &&& end.outcome == Some(true) ==> some_tick_saw(ticks, AuthPoll::Granted)
                && end.last_tick - start.entered_at > MIN_AUTH_MILLIS + HOLD_MILLIS
            &&& end.outcome == Some(false) ==> some_tick_saw(ticks, AuthPoll::Denied)
                || some_tick_cancelled(ticks)
        }),
    decreases ticks.len(),
{
    if ticks.len() > 0 {
        let earlier = ticks.drop_last();
        let tick = ticks.last();
        let last = ticks.len() - 1;
        lemma_gate_runs(start, earlier);
        let before = after_ticks(start, earlier);
        let end = before.after_tick(tick.now, tick.auth, tick.cancel, tick.rain);
        assert(end == after_ticks(start, ticks));
        assert(forall|i: int| 0 <= i < earlier.len() ==> earlier[i] == ticks[i]);
        if some_tick_saw(earlier, AuthPoll::Granted) {
            let i = choose|i: int| 0 <= i < earlier.len() && (#[trigger] earlier[i]).auth == AuthPoll::Granted;
            assert(ticks[i].auth == AuthPoll::Granted);
        }
        if some_tick_saw(earlier, AuthPoll::Denied) {
            let i = choose|i: int| 0 <= i < earlier.len() && (#[trigger] earlier[i]).auth == AuthPoll::Denied;
            assert(ticks[i].auth == AuthPoll::Denied);
        }
        if some_tick_cancelled(earlier) {
            let i = choose|i: int| 0 <= i < earlier.len() && (#[trigger] earlier[i]).cancel;
            assert(ticks[i].cancel);
        }
        assert(ticks[last] == tick);
    }
}

/// A gate with its animation.
pub struct Gate {
    animation: MatrixAnimation,
    entered_at: u64,
    verdict: Option<bool>,
    decided_at: u64,
    last_tick: u64,
    outcome: Option<bool>,
}

impl View for Gate {
    type V = GateView;

    closed spec fn view(&self) -> GateView {
        GateView {
            animation: self.animation@,
            entered_at: self.entered_at,
            verdict: self.verdict,
            decided_at: self.decided_at,
            last_tick: self.last_tick,
            outcome: self.outcome,
        }
    }
}

impl Gate {
    /// A gate over `width` columns of `height` rows that begins to show the
    /// check at the present moment of its animation's clock.
    pub fn new(width: u16, height: u16) -> (gate: Self)
        ensures
            gate@.wf(),
            exists|now: u64| gate@.begins_at(now, width as int),
    {
        let mut animation = MatrixAnimation::new(width, height);
        animation.start_authentication();
        let now = animation.elapsed_millis();
        let gate = Gate {
            animation,
            entered_at: now,
            verdict: None,
            decided_at: now,
            last_tick: now,
            outcome: None,
        };
        assert(gate@.begins_at(now, width as int));
        gate
    }

    /// A gate over `width` columns of `height` rows that begins to show the
    /// check at `now`.
    pub fn new_at(width: u16, height: u16, now: u64) -> (gate: Self)
        ensures
            gate@.wf(),
            gate@.begins_at(now, width as int),
    {
        let mut animation = MatrixAnimation::new(width, height);
        animation.start_authentication();
        Gate {
            animation,
            entered_at: now,
            verdict: None,
            decided_at: now,
            last_tick: now,
            outcome: None,
        }
    }

    /// One tick at the present moment of the animation's clock. See
    /// [`Gate::tick_at`].
    pub fn tick(&mut self, auth: AuthPoll, cancel: bool) -> (action: GateAction)
        ensures
            exists|now: u64| old(self)@.ticks_to(final(self)@, now, auth, cancel, action),
            old(self)@.wf() ==> final(self)@.wf(),
    {
        let now = self.animation.elapsed_millis();
        self.tick_at(now, auth, cancel)
    }

    /// One tick at `now`. A gate that has stopped repeats its verdict.
    /// Otherwise the cancellation key, while the check is under way or its
    /// success is being shown, stops it with `false`; the result of
    /// the check is taken note of once the check has been shown for
    /// [`MIN_AUTH_MILLIS`]; success is typed out, held, and then stops it
    /// with `true`; failure is shown for [`FAILURE_MILLIS`] and then stops
    /// it with `false`.
    pub fn tick_at(&mut self, now: u64, auth: AuthPoll, cancel: bool) -> (action: GateAction)
        ensures
            old(self)@.ticks_to(final(self)@, now, auth, cancel, action),
            old(self)@.wf() ==> final(self)@.wf(),
    {
        if let Some(verdict) = self.outcome {
            return GateAction::Finish(verdict);
        }
        let at = if now < self.last_tick {
            self.last_tick
        } else {
            now
        };
        self.last_tick = at;
        match self.animation.phase() {
            AnimationPhase::MatrixRain => {
                self.animation.update_at(at);
                GateAction::Continue
            },
            AnimationPhase::Authenticating => {
                if cancel {
                    self.outcome = Some(false);
                    return GateAction::Finish(false);
                }
                self.animation.update_at(at);
                if at >= self.entered_at && at - self.entered_at >= MIN_AUTH_MILLIS {
                    match auth {
                        AuthPoll::Pending => {},
                        AuthPoll::Granted => {
                            self.animation.authentication_success();
                            self.verdict = Some(true);
                            self.decided_at = at;
                        },
                        AuthPoll::Denied => {
                            self.animation.authentication_failed();
                            self.verdict = Some(false);
                            self.decided_at = at;
                        },
                    }
                }
                GateAction::Continue
            },
            AnimationPhase::Decoding => {
                if cancel {
                    self.outcome = Some(false);
                    return GateAction::Finish(false);
                }
                self.animation.update_at(at);
                if self.animation.phase() == AnimationPhase::Success {
                    self.outcome = Some(true);
                    GateAction::Finish(true)
                } else {
                    GateAction::Continue
                }
            },
            AnimationPhase::Failed => {
                if at >= self.decided_at && at - self.decided_at >= FAILURE_MILLIS {
                    self.outcome = Some(false);
                    GateAction::Finish(false)
                } else {
                    self.animation.update_at(at);
                    GateAction::Continue
                }
            },
            AnimationPhase::Success => {
                self.outcome = Some(true);
                GateAction::Finish(true)
            },
        }
    }

    /// The animation, to draw it.
    pub fn animation(&self) -> (animation: &MatrixAnimation)
        ensures
            animation@ == self@.animation,
    {
        &self.animation
    }

    /// The verdict this gate has stopped with, if it has.
    pub fn outcome(&self) -> (outcome: Option<bool>)
        ensures
            outcome == self@.outcome,
    {
        self.outcome
    }
}

} // verus!
