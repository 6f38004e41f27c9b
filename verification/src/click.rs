//! Counting the presses of a multiple click.

use crate::geometry::Point;
use vstd::prelude::*;

verus! {

/// The last press of a mouse button, and how many presses its click holds so far.
#[derive(Clone, Copy, Debug, PartialEq, Eq, Structural)]
pub struct ClickState {
    /// When the press was, in nanoseconds on a clock that never runs back.
    pub last_click: u128,
    pub last_location: Point,
    pub current_count: usize,
}

/// What the surroundings say of a press: two readings of the clock that
/// [`ClickState::last_click`] is measured on, and the platform's rules for a multiple
/// click.
#[derive(Clone, Copy, Debug, PartialEq, Eq, Structural)]
pub struct PressContext {
    /// The reading against which the time since the last press is measured.
    pub checked_at: u128,
    /// The reading that is kept as the time of this press.
    pub pressed_at: u128,
    /// The time, in nanoseconds, within which the next press of a click has to come.
    pub double_click_interval: u128,
    /// Whether the pointer is within the click distance of the last press.
    pub within_click_distance: bool,
}

impl ClickState {
    /// The state of a client whose mouse was not pressed yet.
    pub fn new(now: u128) -> (click: ClickState)
        ensures
            click == (ClickState {
                last_click: now,
                last_location: Point { x: 0, y: 0 },
                current_count: 0,
            }),
    {
        ClickState { last_click: now, last_location: Point { x: 0, y: 0 }, current_count: 0 }
    }

    /// The time from the last press to the reading `at`; zero for a reading before it.
    pub open spec fn elapsed(self, at: u128) -> int {
        if at >= self.last_click {
            at - self.last_click
        } else {
            0
        }
    }

    /// Whether a press in `context` continues the click of the last press: it comes in
    /// time and near enough.
    pub open spec fn continues(self, context: PressContext) -> bool {
        self.elapsed(context.checked_at) < context.double_click_interval
            && context.within_click_distance
    }

    /// The number of presses that the click holds with a press in `context`.
    pub open spec fn next_count(self, context: PressContext) -> int {
        if self.continues(context) {
            self.current_count + 1
        } else {
            1
        }
    }

    /// The state after a press at `location`.
    pub open spec fn after_press(self, context: PressContext, location: Point) -> ClickState {
        ClickState {
            last_click: context.pressed_at,
            last_location: location,
            current_count: self.next_count(context) as usize,
        }
    }

    /// Tells whether the count has room for a press in `context`.
    pub fn can_press(&self, context: PressContext) -> (possible: bool)
        ensures
            possible == (self.next_count(context) <= usize::MAX),
            !possible <==> self.current_count == usize::MAX && context.within_click_distance
                && context.double_click_interval > 0 && context.checked_at < self.last_click
                + context.double_click_interval,
    {
        let since: u128 = context.checked_at.saturating_sub(self.last_click);
        !(since < context.double_click_interval && context.within_click_distance
            && self.current_count == usize::MAX)
    }

    /// Counts a press at `location`.
    pub fn press(&mut self, context: PressContext, location: Point)
        requires
            old(self).next_count(context) <= usize::MAX,
        ensures
            *final(self) == old(self).after_press(context, location),
            final(self).current_count == old(self).next_count(context),
            final(self).last_click == context.pressed_at,
            final(self).last_location == location,
    {
        let since: u128 = context.checked_at.saturating_sub(self.last_click);
        if since < context.double_click_interval && context.within_click_distance {
            self.current_count = self.current_count + 1;
        } else {
            self.current_count = 1;
        }
        self.last_click = context.pressed_at;
        self.last_location = location;
    }
}

/// The count after each of `contexts` was pressed in turn, the pointer staying where it
/// is.
pub open spec fn after_presses(
    click: ClickState,
    contexts: Seq<PressContext>,
    location: Point,
) -> ClickState
    decreases contexts.len(),
{
    if contexts.len() == 0 {
        click
    } else {
        after_presses(click, contexts.drop_last(), location).after_press(contexts.last(), location)
    }
}

/// A press that comes too late or too far away starts a click of its own.
pub proof fn lemma_late_or_far_press_starts_over(
    click: ClickState,
    context: PressContext,
    location: Point,
)
    requires
        click.elapsed(context.checked_at) >= context.double_click_interval
            || !context.within_click_distance,
    ensures
        click.after_press(context, location).current_count == 1,
{
}

/// As long as every press comes in time and near enough, each adds one to the count.
pub proof fn lemma_quick_presses_add_up(
    click: ClickState,
    contexts: Seq<PressContext>,
    location: Point,
)
    requires
        click.current_count + contexts.len() <= usize::MAX,
        forall|i: int|
            0 <= i < contexts.len() ==> #[trigger] after_presses(
                click,
                contexts.take(i),
                location,
            ).continues(contexts[i]),
    ensures
        after_presses(click, contexts, location).current_count == click.current_count
            + contexts.len(),
    decreases contexts.len(),
{
    if contexts.len() > 0 {
        let front = contexts.drop_last();
        assert forall|i: int| 0 <= i < front.len() implies #[trigger] after_presses(
            click,
            front.take(i),
            location,
        ).continues(front[i]) by {
            assert(front.take(i) =~= contexts.take(i));
        }
        lemma_quick_presses_add_up(click, front, location);
        assert(contexts.take(contexts.len() - 1) =~= front);
    }
}

/// After a press the click holds at least that press.
pub proof fn lemma_press_is_counted(click: ClickState, context: PressContext, location: Point)
    requires
        click.next_count(context) <= usize::MAX,
    ensures
        click.after_press(context, location).current_count >= 1,
{
}

/// A press whose reading of the clock has reached the last press plus the interval, or that
/// is out of the click distance, is the first of a new click. Every other press, within an
/// interval that is not empty, is one more of the old click. The press is kept with its own
/// time and place.
pub proof fn lemma_press_goes_by_the_clock(
    click: ClickState,
    context: PressContext,
    location: Point,
)
    ensures
        context.checked_at >= click.last_click + context.double_click_interval
            || !context.within_click_distance || context.double_click_interval == 0
            ==> click.next_count(context) == 1 && click.after_press(
            context,
            location,
        ).current_count == 1,
        context.checked_at < click.last_click + context.double_click_interval
            && context.within_click_distance && context.double_click_interval > 0
            ==> click.next_count(context) == click.current_count + 1 && (click.current_count
            < usize::MAX ==> click.after_press(context, location).current_count
            == click.current_count + 1),
        click.after_press(context, location).last_click == context.pressed_at,
        click.after_press(context, location).last_location == location,
{
}

/// However much later a press comes, it does not go back to the old click: once one reading
/// of the clock is too late, so is every later one.
pub proof fn lemma_late_stays_late(
    click: ClickState,
    context: PressContext,
    later: u128,
    location: Point,
)
    requires
        context.checked_at >= click.last_click + context.double_click_interval,
        later >= context.checked_at,
    ensures
        click.after_press(
            PressContext { checked_at: later, ..context },
            location,
        ).current_count == 1,
{
}

} // verus!
