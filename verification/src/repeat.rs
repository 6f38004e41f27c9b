//! Repeating a key that is held down.

use crate::numbers::reinterpret;
use crate::numbers::reinterpreted;
use crate::numbers::sign_extend;
use crate::numbers::sign_extended;
use vstd::prelude::*;

verus! {

/// How keys repeat, and which key does.
#[derive(Clone, Copy, Debug, PartialEq, Eq, Structural)]
pub struct KeyRepeat {
    pub characters_per_second: u32,
    /// The time from a press to its first repetition, in milliseconds.
    pub delay: u64,
    /// The number of key presses so far. A timer that a press armed carries the number of
    /// that press.
    pub current_id: u64,
    /// The keysym of the key that repeats, while one does.
    pub current_keysym: Option<u32>,
}

/// A timer to be armed for a key press.
#[derive(Clone, Copy, Debug, PartialEq, Eq, Structural)]
pub struct RepeatTimer {
    /// The press that the timer belongs to.
    pub id: u64,
    /// The rate at which it repeats, in characters per second.
    pub rate: u32,
    /// The time to its first expiry, in milliseconds.
    pub delay: u64,
}

/// What becomes of a repeat timer that has expired.
#[derive(Clone, Copy, Debug, PartialEq, Eq, Structural)]
pub enum TimeoutAction {
    /// The timer is dropped.
    Drop,
    /// The timer's input is delivered to `window`, and the timer expires again after
    /// `nanoseconds`.
    Repeat { window: u64, nanoseconds: u64 },
}

/// The nanoseconds of a second.
pub const NANOSECONDS_PER_SECOND: u64 = 1_000_000_000;

impl KeyRepeat {
    /// The settings before the compositor sends its own: half a second, then sixteen
    /// characters per second.
    pub fn new() -> (repeat: KeyRepeat)
        ensures
            repeat == (KeyRepeat {
                characters_per_second: 16,
                delay: 500,
                current_id: 0,
                current_keysym: None,
            }),
    {
        KeyRepeat { characters_per_second: 16, delay: 500, current_id: 0, current_keysym: None }
    }

    /// The settings of a `repeat_info` event.
    pub open spec fn with_info(self, rate: i32, delay: i32) -> KeyRepeat {
        KeyRepeat {
            characters_per_second: reinterpreted(rate) as u32,
            delay: sign_extended(delay) as u64,
            ..self
        }
    }

    /// Takes over the settings of a `repeat_info` event.
    pub fn set_info(&mut self, rate: i32, delay: i32)
        ensures
            *final(self) == old(self).with_info(rate, delay),
            final(self).characters_per_second == reinterpreted(rate),
            final(self).delay == sign_extended(delay),
    {
        self.characters_per_second = reinterpret(rate);
        self.delay = sign_extend(delay);
    }

    pub open spec fn after_press(self, keysym: u32) -> KeyRepeat {
        KeyRepeat {
            current_id: (self.current_id + 1) as u64,
            current_keysym: Some(keysym),
            ..self
        }
    }

    /// The timer that the press of `self.current_id` arms.
    pub open spec fn spec_timer(self) -> RepeatTimer {
        RepeatTimer { id: self.current_id, rate: self.characters_per_second, delay: self.delay }
    }

    /// Makes the key of `keysym` the one that repeats, and gives the timer to arm.
    pub fn press(&mut self, keysym: u32) -> (timer: RepeatTimer)
        requires
            old(self).current_id < u64::MAX,
        ensures
            *final(self) == old(self).after_press(keysym),
            final(self).current_id == old(self).current_id + 1,
            timer == final(self).spec_timer(),
    {
        self.current_id = self.current_id + 1;
        self.current_keysym = Some(keysym);
        RepeatTimer { id: self.current_id, rate: self.characters_per_second, delay: self.delay }
    }

    pub open spec fn after_release(self) -> KeyRepeat {
        KeyRepeat { current_keysym: None, ..self }
    }

    /// Stops the repetition.
    pub fn release(&mut self)
        ensures
            *final(self) == old(self).after_release(),
    {
        self.current_keysym = None;
    }

    /// Whether the press `id` still repeats, for a keyboard focus of `focus`.
    pub open spec fn repeats(self, id: u64, focus: Option<u64>) -> bool {
        id == self.current_id && self.current_keysym is Some && focus is Some
    }

    /// What becomes of the timer of press `id` when it expires.
    pub open spec fn spec_timeout(self, id: u64, rate: u32, focus: Option<u64>) -> TimeoutAction {
        if self.repeats(id, focus) {
            TimeoutAction::Repeat {
                window: focus->0,
                nanoseconds: NANOSECONDS_PER_SECOND / (rate as u64),
            }
        } else {
            TimeoutAction::Drop
        }
    }

    /// Tells whether the press `id` still repeats.
    pub fn is_repeating(&self, id: u64, focus: Option<u64>) -> (repeating: bool)
        ensures
            repeating == self.repeats(id, focus),
    {
        id == self.current_id && self.current_keysym.is_some() && focus.is_some()
    }

    /// Decides what becomes of the timer of press `id`, armed at `rate`, when it expires.
    pub fn timeout(&self, id: u64, rate: u32, focus: Option<u64>) -> (action: TimeoutAction)
        requires
            self.repeats(id, focus) ==> rate != 0,
        ensures
            action == self.spec_timeout(id, rate, focus),
    {
        match focus {
            Some(window) if self.is_repeating(id, focus) => TimeoutAction::Repeat {
                window,
                nanoseconds: NANOSECONDS_PER_SECOND / (rate as u64),
            },
            _ => TimeoutAction::Drop,
        }
    }
}

/// A key repeats from its press on, and only with the timer that this press armed.
pub proof fn lemma_press_repeats_alone(repeat: KeyRepeat, keysym: u32, id: u64, window: u64)
    requires
        repeat.current_id < u64::MAX,
    ensures
        repeat.after_press(keysym).repeats(id, Some(window)) <==> id == repeat.after_press(
            keysym,
        ).spec_timer().id,
{
}

/// Once a key is pressed, the timer of every earlier press is dropped.
pub proof fn lemma_earlier_timers_are_dropped(
    repeat: KeyRepeat,
    keysym: u32,
    id: u64,
    rate: u32,
    focus: Option<u64>,
)
    requires
        repeat.current_id < u64::MAX,
        id <= repeat.current_id,
    ensures
        repeat.after_press(keysym).spec_timeout(id, rate, focus) is Drop,
{
}

/// After a release every timer is dropped.
pub proof fn lemma_release_stops_repetition(
    repeat: KeyRepeat,
    id: u64,
    rate: u32,
    focus: Option<u64>,
)
    ensures
        repeat.after_release().spec_timeout(id, rate, focus) is Drop,
{
}

/// A report sets the rate and the delay; a press counts itself and names its key; a release
/// names none. Each leaves the rest as it was, and a timer carries the press, the rate and
/// the delay of the moment.
pub proof fn lemma_changes_are_apart(repeat: KeyRepeat, rate: i32, delay: i32, keysym: u32)
    ensures
        rate >= 0 ==> repeat.with_info(rate, delay).characters_per_second == rate,
        rate < 0 ==> repeat.with_info(rate, delay).characters_per_second == rate + 0x1_0000_0000,
        delay >= 0 ==> repeat.with_info(rate, delay).delay == delay,
        delay < 0 ==> repeat.with_info(rate, delay).delay == delay + 0x1_0000_0000_0000_0000,
        repeat.with_info(rate, delay).current_id == repeat.current_id,
        repeat.with_info(rate, delay).current_keysym == repeat.current_keysym,
        repeat.current_id < u64::MAX ==> repeat.after_press(keysym) == (KeyRepeat {
            characters_per_second: repeat.characters_per_second,
            delay: repeat.delay,
            current_id: (repeat.current_id + 1) as u64,
            current_keysym: Some(keysym),
        }),
        repeat.after_release() == (KeyRepeat {
            characters_per_second: repeat.characters_per_second,
            delay: repeat.delay,
            current_id: repeat.current_id,
            current_keysym: None,
        }),
        repeat.spec_timer() == (RepeatTimer {
            id: repeat.current_id,
            rate: repeat.characters_per_second,
            delay: repeat.delay,
        }),
{
}

} // verus!
