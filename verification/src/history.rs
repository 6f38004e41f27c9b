//! What holds over everything that can happen to a client.

use crate::client::ClientView;
use crate::dispatch::lemma_step_keeps_invariant;
use crate::events::ButtonState;
use crate::events::Event;
use crate::events::KeyState;
use crate::events::KeyboardEvent;
use crate::events::ObjectId;
use crate::events::PointerEvent;
use crate::input::spec_mouse_button;
use crate::protocol::spec_is_modifier_key;
use crate::windows::ids;
use crate::windows::output_ids;
use crate::windows::Role;
use vstd::prelude::*;

verus! {

/// One thing that can happen to a client.
pub enum Operation {
    Event(Event),
    OpenWindow { xdg_surface: ObjectId, surface: ObjectId, toplevel: ObjectId },
    SetCursorIcon { icon: &'static str },
    Run,
}

impl ClientView {
    /// Whether the client can work with an operation.
    pub open spec fn accepts_operation(self, operation: Operation) -> bool {
        match operation {
            Operation::Event(event) => self.accepts(event),
            Operation::Run => !self.running,
            _ => true,
        }
    }

    /// The client after an operation.
    pub open spec fn after_operation(self, operation: Operation) -> ClientView {
        match operation {
            Operation::Event(event) => self.step(event).0,
            Operation::OpenWindow { xdg_surface, surface, toplevel } => self.with_window(
                xdg_surface,
                surface,
                toplevel,
            ),
            Operation::SetCursorIcon { icon } => ClientView { cursor_icon_name: icon, ..self },
            Operation::Run => ClientView { running: true, ..self },
        }
    }

    /// The client after a history of operations.
    pub open spec fn after(self, history: Seq<Operation>) -> ClientView
        decreases history.len(),
    {
        if history.len() == 0 {
            self
        } else {
            self.after(history.drop_last()).after_operation(history.last())
        }
    }

    /// Whether the client can work with each operation of a history in turn.
    pub open spec fn accepts_history(self, history: Seq<Operation>) -> bool
        decreases history.len(),
    {
        history.len() == 0 || (self.accepts_history(history.drop_last()) && self.after(
            history.drop_last(),
        ).accepts_operation(history.last()))
    }

    /// Whether some operation of a history closes a window that has the focus.
    pub open spec fn history_closes_focus(self, history: Seq<Operation>) -> bool
        decreases history.len(),
    {
        history.len() > 0 && (self.history_closes_focus(history.drop_last()) || (
        history.last() matches Operation::Event(event) && self.after(
            history.drop_last(),
        ).closes_focus(event)))
    }
}

/// Whether an operation is the press of a key that is no modifier.
pub open spec fn is_key_press(operation: Operation) -> bool {
    operation matches Operation::Event(Event::Keyboard(event)) && event
        matches KeyboardEvent::KeyResolved { key_state, keysym, .. } && key_state is Pressed
        && !spec_is_modifier_key(keysym)
}

/// Whether an operation is the press of a mouse button.
pub open spec fn is_button_press(operation: Operation) -> bool {
    operation matches Operation::Event(Event::Pointer(event)) && event
        matches PointerEvent::Button { button, state, .. } && spec_mouse_button(button) is Some
        && state == Some(ButtonState::Pressed)
}

/// Whether an operation reports which modifiers are effective.
pub open spec fn is_modifier_report(operation: Operation) -> bool {
    operation matches Operation::Event(Event::Keyboard(event)) && event is ModifiersResolved
}

/// Whether an operation reports how fast keys repeat.
pub open spec fn is_repeat_info(operation: Operation) -> bool {
    operation matches Operation::Event(Event::Keyboard(event)) && event is RepeatInfo
}

/// Opening a window keeps the invariant.
pub proof fn lemma_open_keeps_invariant(
    client: ClientView,
    xdg_surface: ObjectId,
    surface: ObjectId,
    toplevel: ObjectId,
)
    requires
        client.wf(),
    ensures
        client.with_window(xdg_surface, surface, toplevel).wf(),
{
    let next = client.with_window(xdg_surface, surface, toplevel);
    let names = ids(client.windows, Role::Surface);
    assert(ids(next.windows, Role::Surface) =~= names.push(surface));
    assert forall|s: ObjectId| client.has_surface(s) implies next.has_surface(s) by {
        assert(ids(next.windows, Role::Surface)[names.index_of(s)] == s);
    }
}

/// The invariant holds after every history that closes no focused window.
pub proof fn lemma_history_keeps_invariant(client: ClientView, history: Seq<Operation>)
    requires
        client.wf(),
        client.accepts_history(history),
        !client.history_closes_focus(history),
    ensures
        client.after(history).wf(),
    decreases history.len(),
{
    if history.len() > 0 {
        let before = client.after(history.drop_last());
        lemma_history_keeps_invariant(client, history.drop_last());
        match history.last() {
            Operation::Event(event) => {
                lemma_step_keeps_invariant(before, event);
            },
            Operation::OpenWindow { xdg_surface, surface, toplevel } => {
                lemma_open_keeps_invariant(before, xdg_surface, surface, toplevel);
            },
            _ => {},
        }
    }
}

/// A key press adds one to the number of presses while a window has the keyboard; every
/// other operation leaves the number as it is, and makes no key repeat that did not.
pub proof fn lemma_operation_counts_key_presses(client: ClientView, operation: Operation)
    requires
        client.accepts_operation(operation),
    ensures
        ({
            let next = client.after_operation(operation);
            if is_key_press(operation) && client.keyboard_focused_window is Some {
                next.repeat.current_id == client.repeat.current_id + 1
            } else {
                &&& next.repeat.current_id == client.repeat.current_id
                &&& next.repeat.current_keysym is Some ==> client.repeat.current_keysym is Some
            }
        }),
{
}

/// A timer of a press that another press has followed is dropped whenever it expires, for
/// all time.
pub proof fn lemma_superseded_timer_never_repeats(
    client: ClientView,
    history: Seq<Operation>,
    id: u64,
    rate: u32,
)
    requires
        id < client.repeat.current_id,
        client.accepts_history(history),
    ensures
        client.after(history).repeat.spec_timeout(
            id,
            rate,
            client.after(history).keyboard_focused_window,
        ) is Drop,
        client.repeat.current_id <= client.after(history).repeat.current_id,
    decreases history.len(),
{
    if history.len() > 0 {
        lemma_superseded_timer_never_repeats(client, history.drop_last(), id, rate);
        lemma_operation_counts_key_presses(client.after(history.drop_last()), history.last());
    }
}

/// While no key repeats, none does until one is pressed: every timer that expires is
/// dropped.
pub proof fn lemma_nothing_repeats_before_a_press(
    client: ClientView,
    history: Seq<Operation>,
    id: u64,
    rate: u32,
)
    requires
        client.repeat.current_keysym is None,
        client.accepts_history(history),
        forall|i: int| 0 <= i < history.len() ==> !is_key_press(#[trigger] history[i]),
    ensures
        client.after(history).repeat.current_keysym is None,
        client.after(history).repeat.spec_timeout(
            id,
            rate,
            client.after(history).keyboard_focused_window,
        ) is Drop,
    decreases history.len(),
{
    if history.len() > 0 {
        let front = history.drop_last();
        assert forall|i: int| 0 <= i < front.len() implies !is_key_press(#[trigger] front[i]) by {
            assert(front[i] == history[i]);
        }
        lemma_nothing_repeats_before_a_press(client, front, id, rate);
        assert(!is_key_press(history[history.len() - 1]));
        lemma_operation_counts_key_presses(client.after(front), history.last());
    }
}

/// Whether the timer of press `id` has done its work: another press has followed, or no key
/// repeats.
pub open spec fn is_spent(client: ClientView, id: u64) -> bool {
    &&& id <= client.repeat.current_id
    &&& client.repeat.current_keysym is Some ==> id < client.repeat.current_id
}

/// A timer that has done its work is dropped whenever it expires, for all time.
pub proof fn lemma_spent_timer_stays_spent(
    client: ClientView,
    history: Seq<Operation>,
    id: u64,
    rate: u32,
)
    requires
        is_spent(client, id),
        client.accepts_history(history),
    ensures
        is_spent(client.after(history), id),
        client.after(history).repeat.spec_timeout(
            id,
            rate,
            client.after(history).keyboard_focused_window,
        ) is Drop,
    decreases history.len(),
{
    if history.len() > 0 {
        lemma_spent_timer_stays_spent(client, history.drop_last(), id, rate);
        lemma_operation_counts_key_presses(client.after(history.drop_last()), history.last());
    }
}

/// Once a key that is no modifier is pressed or let go in the window that has the keyboard,
/// the timer of every press up to then is dropped whenever it expires, whatever happens
/// after, new presses and all.
pub proof fn lemma_key_change_ends_earlier_timers(
    client: ClientView,
    keycode: u32,
    key_state: KeyState,
    keysym: u32,
    history: Seq<Operation>,
    id: u64,
    rate: u32,
)
    requires
        client.keyboard_focused_window is Some,
        key_state is Pressed || key_state is Released,
        !spec_is_modifier_key(keysym),
        client.accepts_keyboard(KeyboardEvent::KeyResolved { keycode, key_state, keysym }),
        id <= client.repeat.current_id,
        client.keyboard_step(
            KeyboardEvent::KeyResolved { keycode, key_state, keysym },
        ).0.accepts_history(history),
    ensures
        ({
            let later = client.keyboard_step(
                KeyboardEvent::KeyResolved { keycode, key_state, keysym },
            ).0.after(history);
            later.repeat.spec_timeout(id, rate, later.keyboard_focused_window) is Drop
        }),
{
    let changed = client.keyboard_step(
        KeyboardEvent::KeyResolved { keycode, key_state, keysym },
    ).0;
    lemma_spent_timer_stays_spent(changed, history, id, rate);
}

/// Only the press of a mouse button changes the state of the click.
pub proof fn lemma_operation_keeps_click(client: ClientView, operation: Operation)
    requires
        !is_button_press(operation),
    ensures
        client.after_operation(operation).click == client.click,
{
}

/// The click count that a press was delivered with is still the count until the next press,
/// so the release of the button is delivered with the same count.
pub proof fn lemma_click_holds_until_next_press(client: ClientView, history: Seq<Operation>)
    requires
        forall|i: int| 0 <= i < history.len() ==> !is_button_press(#[trigger] history[i]),
    ensures
        client.after(history).click == client.click,
    decreases history.len(),
{
    if history.len() > 0 {
        let front = history.drop_last();
        assert forall|i: int| 0 <= i < front.len() implies !is_button_press(
            #[trigger] front[i],
        ) by {
            assert(front[i] == history[i]);
        }
        lemma_click_holds_until_next_press(client, front);
        assert(!is_button_press(history[history.len() - 1]));
        lemma_operation_keeps_click(client.after(front), history.last());
    }
}

/// Only a report of the keymap changes the modifiers, and none changes the function
/// modifier.
pub proof fn lemma_operation_keeps_modifiers(client: ClientView, operation: Operation)
    ensures
        !is_modifier_report(operation) ==> client.after_operation(operation).modifiers
            == client.modifiers,
        client.after_operation(operation).modifiers.function == client.modifiers.function,
{
}

/// The modifiers that input carries are those of the last report; the function modifier
/// stays what it was.
pub proof fn lemma_modifiers_hold_until_next_report(client: ClientView, history: Seq<Operation>)
    ensures
        (forall|i: int| 0 <= i < history.len() ==> !is_modifier_report(#[trigger] history[i]))
            ==> client.after(history).modifiers == client.modifiers,
        client.after(history).modifiers.function == client.modifiers.function,
    decreases history.len(),
{
    if history.len() > 0 {
        let front = history.drop_last();
        lemma_modifiers_hold_until_next_report(client, front);
        lemma_operation_keeps_modifiers(client.after(front), history.last());
        if forall|i: int| 0 <= i < history.len() ==> !is_modifier_report(#[trigger] history[i]) {
            assert forall|i: int| 0 <= i < front.len() implies !is_modifier_report(
                #[trigger] front[i],
            ) by {
                assert(front[i] == history[i]);
            }
            assert(!is_modifier_report(history[history.len() - 1]));
        }
    }
}

/// Whether an operation reports how an axis relates to the movement behind it.
pub open spec fn is_direction_report(operation: Operation) -> bool {
    operation matches Operation::Event(Event::Pointer(event)) && event
        matches PointerEvent::AxisRelativeDirection { direction } && direction is Some
}

/// Whether an operation reports where scrolls come from.
pub open spec fn is_source_report(operation: Operation) -> bool {
    operation matches Operation::Event(Event::Pointer(event)) && event
        matches PointerEvent::AxisSource { axis_source } && axis_source is Some
}

/// The direction in which the content scrolls is that of the last report.
pub proof fn lemma_scroll_direction_holds_until_next_report(
    client: ClientView,
    history: Seq<Operation>,
)
    requires
        forall|i: int| 0 <= i < history.len() ==> !is_direction_report(#[trigger] history[i]),
    ensures
        client.after(history).scroll_direction == client.scroll_direction,
    decreases history.len(),
{
    if history.len() > 0 {
        let front = history.drop_last();
        assert forall|i: int| 0 <= i < front.len() implies !is_direction_report(
            #[trigger] front[i],
        ) by {
            assert(front[i] == history[i]);
        }
        lemma_scroll_direction_holds_until_next_report(client, front);
        assert(!is_direction_report(history[history.len() - 1]));
    }
}

/// The source of scrolls is that of the last report.
pub proof fn lemma_axis_source_holds_until_next_report(
    client: ClientView,
    history: Seq<Operation>,
)
    requires
        forall|i: int| 0 <= i < history.len() ==> !is_source_report(#[trigger] history[i]),
    ensures
        client.after(history).axis_source == client.axis_source,
    decreases history.len(),
{
    if history.len() > 0 {
        let front = history.drop_last();
        assert forall|i: int| 0 <= i < front.len() implies !is_source_report(
            #[trigger] front[i],
        ) by {
            assert(front[i] == history[i]);
        }
        lemma_axis_source_holds_until_next_report(client, front);
        assert(!is_source_report(history[history.len() - 1]));
    }
}

/// No operation forgets an output, a keymap, or that the event loop was started.
pub proof fn lemma_operation_forgets_nothing(
    client: ClientView,
    operation: Operation,
    output: ObjectId,
)
    requires
        client.accepts_operation(operation),
    ensures
        client.has_output(output) ==> client.after_operation(operation).has_output(output),
        client.has_keymap ==> client.after_operation(operation).has_keymap,
        client.running ==> client.after_operation(operation).running,
{
    let next = client.after_operation(operation);
    let names = output_ids(client.outputs);
    match operation {
        Operation::Event(Event::OutputBound { output: bound }) => {
            assert(output_ids(next.outputs) =~= names.push(bound));
            if client.has_output(output) {
                assert(output_ids(next.outputs)[names.index_of(output)] == output);
            }
        },
        Operation::Event(Event::Output { output: told, .. }) => {
            names.index_of_first_ensures(told);
            assert(output_ids(next.outputs) =~= names);
        },
        _ => {},
    }
}

/// No history forgets an output, a keymap, or that the event loop was started.
pub proof fn lemma_history_forgets_nothing(
    client: ClientView,
    history: Seq<Operation>,
    output: ObjectId,
)
    requires
        client.accepts_history(history),
    ensures
        client.has_output(output) ==> client.after(history).has_output(output),
        client.has_keymap ==> client.after(history).has_keymap,
        client.running ==> client.after(history).running,
    decreases history.len(),
{
    if history.len() > 0 {
        lemma_history_forgets_nothing(client, history.drop_last(), output);
        lemma_operation_forgets_nothing(
            client.after(history.drop_last()),
            history.last(),
            output,
        );
    }
}

} // verus!
