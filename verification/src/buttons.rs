//! Button press classification.
//!
//! Each physical button runs one classifier instance that turns raw
//! press/release edges into a single gesture per press cycle: `Short`,
//! `Long` or `Double`. A hold of at least [`LONG_PRESS_MS`] is reported as
//! `Long` the moment the threshold passes, not at release. A shorter hold is
//! `Double` when a second press begins within [`DOUBLE_WINDOW_MS`] of the
//! release, else `Short` once that window closes.

use vstd::prelude::*;

verus! {

/// Type of button press made.
#[derive(Clone, Copy, PartialEq, Eq, Structural, Debug)]
pub enum ButtonPress {
    /// Hold shorter than the long threshold, with no second press inside the
    /// double window.
    Short,
    /// Hold of at least the long threshold.
    Long,
    /// Hold shorter than the long threshold, with a second press inside the
    /// double window.
    Double,
}

/// Identity of a physical control.
#[derive(Clone, Copy, PartialEq, Eq, Structural, Debug)]
pub enum LogicalButton {
    SwitchA,
    SwitchB,
    SwitchC,
    SwitchD,
    BrightnessUp,
    BrightnessDown,
}

/// Holding a button at least this long classifies the press as `Long`.
pub const LONG_PRESS_MS: u64 = 500;

/// A second press no later than this after a release makes a `Double`.
pub const DOUBLE_WINDOW_MS: u64 = 250;

/// Settle time after the final release before the classifier re-arms.
pub const DEBOUNCE_MS: u64 = 200;

/// What [`classify_press`] returns, as a spec-level function of the hold
/// duration and the delay of a second press (`None` when no second press
/// happened inside the window).
pub open spec fn spec_classify(hold_ms: u64, second_press_gap_ms: Option<u64>) -> ButtonPress {
    if hold_ms >= LONG_PRESS_MS {
        ButtonPress::Long
    } else if second_press_gap_ms is Some && second_press_gap_ms->0 <= DOUBLE_WINDOW_MS {
        ButtonPress::Double
    } else {
        ButtonPress::Short
    }
}

/// Classify one completed press cycle. `hold_ms` is how long the button was
/// held; `second_press_gap_ms` is the time from release to a second press,
/// if one was seen. Both boundary values resolve to one side: a hold of
/// exactly the long threshold is `Long`, a second press exactly on the
/// double window's edge is `Double`.
pub fn classify_press(hold_ms: u64, second_press_gap_ms: Option<u64>) -> (r: ButtonPress)
    ensures
        r == spec_classify(hold_ms, second_press_gap_ms),
        hold_ms >= LONG_PRESS_MS ==> r is Long,
        hold_ms < LONG_PRESS_MS && (second_press_gap_ms is None || second_press_gap_ms->0
            > DOUBLE_WINDOW_MS) ==> r is Short,
        hold_ms < LONG_PRESS_MS && second_press_gap_ms is Some && second_press_gap_ms->0
            <= DOUBLE_WINDOW_MS ==> r is Double,
{
    if hold_ms >= LONG_PRESS_MS {
        ButtonPress::Long
    } else {
        match second_press_gap_ms {
            Some(gap) => {
                if gap <= DOUBLE_WINDOW_MS {
                    ButtonPress::Double
                } else {
                    ButtonPress::Short
                }
            },
            None => ButtonPress::Short,
        }
    }
}

/// For all hold durations and second-press delays the classifier resolves to
/// exactly one gesture, long holds to `Long`, short holds with a prompt
/// second press to `Double`, and every other short hold to `Short`.
pub proof fn lemma_classification_total(hold_ms: u64, second_press_gap_ms: Option<u64>)
    ensures
        hold_ms >= LONG_PRESS_MS ==> spec_classify(hold_ms, second_press_gap_ms)
            == ButtonPress::Long,
        hold_ms < LONG_PRESS_MS && second_press_gap_ms is Some && second_press_gap_ms->0
            <= DOUBLE_WINDOW_MS ==> spec_classify(hold_ms, second_press_gap_ms)
            == ButtonPress::Double,
        hold_ms < LONG_PRESS_MS && !(second_press_gap_ms is Some && second_press_gap_ms->0
            <= DOUBLE_WINDOW_MS) ==> spec_classify(hold_ms, second_press_gap_ms)
            == ButtonPress::Short,
{
}

/// Phase of one classifier instance. Initial phase is `Idle`.
#[derive(Clone, Copy, PartialEq, Eq, Structural, Debug)]
pub enum Phase {
    /// Waiting for a press.
    Idle,
    /// Button went down at `pressed_at`; racing release against the long
    /// threshold.
    Pressed { pressed_at: u64 },
    /// `Long` was already reported; waiting for the eventual release.
    LongHeld,
    /// Released at `released_at` before the long threshold; waiting for a
    /// second press inside the double window.
    ReleasedPending { released_at: u64 },
    /// Second press seen, `Double` already reported; waiting for its release.
    DoubleHeld,
    /// Final release seen at `since`; holding off for the debounce time.
    Debounce { since: u64 },
}

/// An observation fed to the classifier: an edge, or the passage of time.
/// `Tick` carries the current time and stands for the expiry checks the
/// firmware runs while waiting.
#[derive(Clone, Copy, PartialEq, Eq, Structural, Debug)]
pub enum ButtonEvent {
    /// Falling edge: the button went active at the given time.
    Down { at: u64 },
    /// Rising edge: the button went inactive at the given time.
    Up { at: u64 },
    /// Time advanced to the given instant with no edge.
    Tick { now: u64 },
}

impl ButtonEvent {
    /// The instant the event was observed at.
    pub open spec fn time(self) -> u64 {
        match self {
            ButtonEvent::Down { at } => at,
            ButtonEvent::Up { at } => at,
            ButtonEvent::Tick { now } => now,
        }
    }
}

/// The classifier's transition function: next phase and the gesture
/// published by this step, if any.
pub open spec fn spec_step(phase: Phase, ev: ButtonEvent) -> (Phase, Option<ButtonPress>) {
    match (phase, ev) {
        (Phase::Idle, ButtonEvent::Down { at }) => (Phase::Pressed { pressed_at: at }, None),
        (Phase::Pressed { pressed_at }, ButtonEvent::Up { at }) => {
            if at - pressed_at >= LONG_PRESS_MS {
                // the long threshold passed while held; the hold was Long
                (Phase::Debounce { since: at }, Some(ButtonPress::Long))
            } else {
                (Phase::ReleasedPending { released_at: at }, None)
            }
        },
        (Phase::Pressed { pressed_at }, ButtonEvent::Tick { now }) => {
            if now - pressed_at >= LONG_PRESS_MS {
                (Phase::LongHeld, Some(ButtonPress::Long))
            } else {
                (phase, None)
            }
        },
        (Phase::LongHeld, ButtonEvent::Up { at }) => (Phase::Debounce { since: at }, None),
        (Phase::ReleasedPending { released_at }, ButtonEvent::Down { at }) => {
            if at - released_at <= DOUBLE_WINDOW_MS {
                (Phase::DoubleHeld, Some(ButtonPress::Double))
            } else {
                // the window closed unobserved; Short was owed, and the new
                // press opens a fresh cycle
                (Phase::Pressed { pressed_at: at }, Some(ButtonPress::Short))
            }
        },
        (Phase::ReleasedPending { released_at }, ButtonEvent::Tick { now }) => {
            if now - released_at > DOUBLE_WINDOW_MS {
                (Phase::Debounce { since: now }, Some(ButtonPress::Short))
            } else {
                (phase, None)
            }
        },
        (Phase::DoubleHeld, ButtonEvent::Up { at }) => (Phase::Debounce { since: at }, None),
        (Phase::Debounce { since }, ButtonEvent::Tick { now }) => {
            if now - since >= DEBOUNCE_MS {
                (Phase::Idle, None)
            } else {
                (phase, None)
            }
        },
        _ => (phase, None),
    }
}

/// One per-button classifier instance.
pub struct Classifier {
    /// Current phase of the press cycle.
    pub phase: Phase,
}

impl Classifier {
    /// Event times never run backwards relative to the instant recorded in
    /// the phase.
    pub open spec fn time_ok(self, ev: ButtonEvent) -> bool {
        match self.phase {
            Phase::Idle => true,
            Phase::Pressed { pressed_at } => pressed_at <= ev.time(),
            Phase::LongHeld => true,
            Phase::ReleasedPending { released_at } => released_at <= ev.time(),
            Phase::DoubleHeld => true,
            Phase::Debounce { since } => since <= ev.time(),
        }
    }

    /// A fresh classifier, armed and idle.
    pub fn new() -> (c: Classifier)
        ensures
            c.phase == Phase::Idle,
    {
        Classifier { phase: Phase::Idle }
    }

    /// Feed one observation to the classifier. Returns the gesture published
    /// by this step, if the step completes a classification.
    pub fn step(&mut self, ev: ButtonEvent) -> (gesture: Option<ButtonPress>)
        requires
            old(self).time_ok(ev),
        ensures
            (final(self).phase, gesture) == spec_step(old(self).phase, ev),
    {
        let (next, gesture): (Phase, Option<ButtonPress>) = match (self.phase, ev) {
            (Phase::Idle, ButtonEvent::Down { at }) => (
                Phase::Pressed { pressed_at: at },
                None,
            ),
            (Phase::Pressed { pressed_at }, ButtonEvent::Up { at }) => {
                if at - pressed_at >= LONG_PRESS_MS {
                    (Phase::Debounce { since: at }, Some(ButtonPress::Long))
                } else {
                    (Phase::ReleasedPending { released_at: at }, None)
                }
            },
            (Phase::Pressed { pressed_at }, ButtonEvent::Tick { now }) => {
                if now - pressed_at >= LONG_PRESS_MS {
                    (Phase::LongHeld, Some(ButtonPress::Long))
                } else {
                    (self.phase, None)
                }
            },
            (Phase::LongHeld, ButtonEvent::Up { at }) => (Phase::Debounce { since: at }, None),
            (Phase::ReleasedPending { released_at }, ButtonEvent::Down { at }) => {
                if at - released_at <= DOUBLE_WINDOW_MS {
                    (Phase::DoubleHeld, Some(ButtonPress::Double))
                } else {
                    (Phase::Pressed { pressed_at: at }, Some(ButtonPress::Short))
                }
            },
            (Phase::ReleasedPending { released_at }, ButtonEvent::Tick { now }) => {
                if now - released_at > DOUBLE_WINDOW_MS {
                    (Phase::Debounce { since: now }, Some(ButtonPress::Short))
                } else {
                    (self.phase, None)
                }
            },
            (Phase::DoubleHeld, ButtonEvent::Up { at }) => (Phase::Debounce { since: at }, None),
            (Phase::Debounce { since }, ButtonEvent::Tick { now }) => {
                if now - since >= DEBOUNCE_MS {
                    (Phase::Idle, None)
                } else {
                    (self.phase, None)
                }
            },
            _ => (self.phase, None),
        };
        self.phase = next;
        gesture
    }
}

/// A full press-release cycle classifies as the hold duration and the second
/// press dictate: from `Idle`, a press at `t0` held until `t0 + hold` gives
/// `Long` at the threshold when `hold >= LONG_PRESS_MS`; a shorter hold
/// followed by a second press within the double window gives `Double` at
/// that press; a shorter hold with the window expiring unanswered gives
/// `Short` at its expiry.
pub proof fn lemma_press_cycle(t0: u64, hold: u64, second_gap: u64)
    requires
        t0 + hold + DOUBLE_WINDOW_MS + second_gap < u64::MAX,
    ensures
        hold >= LONG_PRESS_MS ==> spec_step(
            spec_step(Phase::Idle, ButtonEvent::Down { at: t0 }).0,
            ButtonEvent::Tick { now: (t0 + LONG_PRESS_MS) as u64 },
        ) == (Phase::LongHeld, Some(ButtonPress::Long)),
        hold < LONG_PRESS_MS && second_gap <= DOUBLE_WINDOW_MS ==> spec_step(
            spec_step(
                spec_step(Phase::Idle, ButtonEvent::Down { at: t0 }).0,
                ButtonEvent::Up { at: (t0 + hold) as u64 },
            ).0,
            ButtonEvent::Down { at: (t0 + hold + second_gap) as u64 },
        ) == (Phase::DoubleHeld, Some(ButtonPress::Double)),
        hold < LONG_PRESS_MS ==> spec_step(
            spec_step(
                spec_step(Phase::Idle, ButtonEvent::Down { at: t0 }).0,
                ButtonEvent::Up { at: (t0 + hold) as u64 },
            ).0,
            ButtonEvent::Tick { now: (t0 + hold + DOUBLE_WINDOW_MS + 1) as u64 },
        ) == (
            Phase::Debounce { since: (t0 + hold + DOUBLE_WINDOW_MS + 1) as u64 },
            Some(ButtonPress::Short),
        ),
{
}

/// Time passing without an edge publishes nothing and moves no phase until
/// a deadline is reached: a tick before the long threshold, before the
/// double window closes, or before the debounce settles leaves the
/// classifier exactly where it was. With [`lemma_press_cycle`] this pins the
/// whole cycle: only the deadline or the edge decides, never the polling.
pub proof fn lemma_early_ticks_are_silent(phase: Phase, now: u64)
    ensures
        phase matches Phase::Pressed { pressed_at } && pressed_at <= now < pressed_at
            + LONG_PRESS_MS ==> spec_step(phase, ButtonEvent::Tick { now }) == (phase, None::<
            ButtonPress,
        >),
        phase matches Phase::ReleasedPending { released_at } && released_at <= now <= released_at
            + DOUBLE_WINDOW_MS ==> spec_step(phase, ButtonEvent::Tick { now }) == (phase, None::<
            ButtonPress,
        >),
        phase matches Phase::Debounce { since } && since <= now < since + DEBOUNCE_MS
            ==> spec_step(phase, ButtonEvent::Tick { now }) == (phase, None::<ButtonPress>),
{
}

/// Latest-value slot a classifier publishes gestures into. An unconsumed
/// gesture is overwritten by the next one; a consumer only ever sees the
/// most recent.
pub struct GestureSlot {
    /// The most recent unconsumed gesture, if any.
    pub latest: Option<ButtonPress>,
}

impl GestureSlot {
    /// An empty slot.
    pub fn new() -> (s: GestureSlot)
        ensures
            s.latest is None,
    {
        GestureSlot { latest: None }
    }

    /// Publish a gesture, overwriting whatever was pending.
    pub fn publish(&mut self, gesture: ButtonPress)
        ensures
            final(self).latest == Some(gesture),
    {
        self.latest = Some(gesture);
    }

    /// Consume the pending gesture, leaving the slot empty.
    pub fn take(&mut self) -> (g: Option<ButtonPress>)
        ensures
            g == old(self).latest,
            final(self).latest is None,
    {
        let g = self.latest;
        self.latest = None;
        g
    }
}

} // verus!
