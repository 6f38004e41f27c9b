//! What a keyboard does, for every state of the client and every value of the event.

use crate::client::ClientView;
use crate::effects::Effect;
use crate::events::ActiveModifiers;
use crate::events::Event;
use crate::events::KeyState;
use crate::events::KeyboardEvent;
use crate::events::KeymapFormat;
use crate::events::ObjectId;
use crate::history::is_repeat_info;
use crate::history::Operation;
use crate::input::KeyDownEvent;
use crate::input::KeyUpEvent;
use crate::input::Keystroke;
use crate::input::Modifiers;
use crate::input::ModifiersChangedEvent;
use crate::input::PlatformInput;
use crate::repeat::KeyRepeat;
use crate::repeat::RepeatTimer;
use crate::repeat::TimeoutAction;
use crate::windows::ids;
use crate::windows::Role;
use vstd::prelude::*;

verus! {

/// The repeat settings that the compositor sends are taken over, whichever window has the
/// keyboard, or none: the rate as the 32 bits that were sent, the delay with its sign
/// extended. Nothing else changes.
pub proof fn lemma_repeat_info_is_taken_over(
    client: ClientView,
    rate: i32,
    delay: i32,
    characters_per_second: u32,
    milliseconds: u64,
)
    requires
        characters_per_second == if rate >= 0 {
            rate as int
        } else {
            rate + 0x1_0000_0000
        },
        milliseconds == if delay >= 0 {
            delay as int
        } else {
            delay + 0x1_0000_0000_0000_0000
        },
    ensures
        client.step(Event::Keyboard(KeyboardEvent::RepeatInfo { rate, delay })) == (
            ClientView {
                repeat: KeyRepeat {
                    characters_per_second,
                    delay: milliseconds,
                    current_id: client.repeat.current_id,
                    current_keysym: client.repeat.current_keysym,
                },
                ..client
            },
            Seq::<Effect>::empty(),
        ),
{
}

/// The repeat settings hold until the compositor sends others, whatever happens.
pub proof fn lemma_repeat_settings_hold_until_next_info(
    client: ClientView,
    history: Seq<Operation>,
)
    requires
        forall|i: int| 0 <= i < history.len() ==> !is_repeat_info(#[trigger] history[i]),
    ensures
        client.after(history).repeat.characters_per_second == client.repeat.characters_per_second,
        client.after(history).repeat.delay == client.repeat.delay,
    decreases history.len(),
{
    if history.len() > 0 {
        let front = history.drop_last();
        assert forall|i: int| 0 <= i < front.len() implies !is_repeat_info(#[trigger] front[i]) by {
            assert(front[i] == history[i]);
        }
        lemma_repeat_settings_hold_until_next_info(client, front);
        assert(!is_repeat_info(history[history.len() - 1]));
    }
}

/// The timer of a key press carries the rate and the delay that the compositor sent last,
/// whatever had the keyboard when it sent them and whatever happened since.
pub proof fn lemma_press_repeats_as_the_compositor_said(
    client: ClientView,
    rate: i32,
    delay: i32,
    history: Seq<Operation>,
    window: ObjectId,
    keycode: u32,
    keysym: u32,
    characters_per_second: u32,
    milliseconds: u64,
)
    requires
        characters_per_second == if rate >= 0 {
            rate as int
        } else {
            rate + 0x1_0000_0000
        },
        milliseconds == if delay >= 0 {
            delay as int
        } else {
            delay + 0x1_0000_0000_0000_0000
        },
        forall|i: int| 0 <= i < history.len() ==> !is_repeat_info(#[trigger] history[i]),
        !(0xffe1 <= keysym <= 0xffee || 0xfe01 <= keysym <= 0xfe13 || 0xff7e <= keysym <= 0xff7f),
        client.step(
            Event::Keyboard(KeyboardEvent::RepeatInfo { rate, delay }),
        ).0.after(history).keyboard_focused_window == Some(window),
    ensures
        ({
            let later = client.step(
                Event::Keyboard(KeyboardEvent::RepeatInfo { rate, delay }),
            ).0.after(history);
            let press = KeyboardEvent::KeyResolved {
                keycode,
                key_state: KeyState::Pressed,
                keysym,
            };
            later.step(Event::Keyboard(press)).1[0] == (Effect::ArmRepeat {
                timer: RepeatTimer {
                    id: (later.repeat.current_id + 1) as u64,
                    rate: characters_per_second,
                    delay: milliseconds,
                },
                input: PlatformInput::KeyDown(
                    KeyDownEvent {
                        keystroke: Keystroke { keycode, modifiers: later.modifiers },
                        is_held: false,
                    },
                ),
            })
        }),
{
    let told = client.step(Event::Keyboard(KeyboardEvent::RepeatInfo { rate, delay })).0;
    lemma_repeat_info_is_taken_over(client, rate, delay, characters_per_second, milliseconds);
    lemma_repeat_settings_hold_until_next_info(told, history);
}

/// The press of a key that is no modifier is counted, makes the key the one that repeats,
/// arms its timer and is delivered, in this order, to the window that has the keyboard.
pub proof fn lemma_key_press_is_delivered(
    client: ClientView,
    window: ObjectId,
    keycode: u32,
    keysym: u32,
    id: u64,
)
    requires
        client.keyboard_focused_window == Some(window),
        !(0xffe1 <= keysym <= 0xffee || 0xfe01 <= keysym <= 0xfe13 || 0xff7e <= keysym <= 0xff7f),
        id == client.repeat.current_id + 1,
    ensures
        ({
            let input = PlatformInput::KeyDown(
                KeyDownEvent {
                    keystroke: Keystroke { keycode, modifiers: client.modifiers },
                    is_held: false,
                },
            );
            client.step(
                Event::Keyboard(
                    KeyboardEvent::KeyResolved { keycode, key_state: KeyState::Pressed, keysym },
                ),
            ) == (
                ClientView {
                    repeat: KeyRepeat {
                        characters_per_second: client.repeat.characters_per_second,
                        delay: client.repeat.delay,
                        current_id: id,
                        current_keysym: Some(keysym),
                    },
                    ..client
                },
                seq![
                    Effect::ArmRepeat {
                        timer: RepeatTimer {
                            id,
                            rate: client.repeat.characters_per_second,
                            delay: client.repeat.delay,
                        },
                        input,
                    },
                    Effect::HandleInput { window, input },
                ],
            )
        }),
{
}

/// The release of a key that is no modifier stops the repetition, whichever key repeats,
/// and is delivered to the window that has the keyboard.
pub proof fn lemma_key_release_is_delivered(
    client: ClientView,
    window: ObjectId,
    keycode: u32,
    keysym: u32,
)
    requires
        client.keyboard_focused_window == Some(window),
        !(0xffe1 <= keysym <= 0xffee || 0xfe01 <= keysym <= 0xfe13 || 0xff7e <= keysym <= 0xff7f),
    ensures
        client.step(
            Event::Keyboard(
                KeyboardEvent::KeyResolved { keycode, key_state: KeyState::Released, keysym },
            ),
        ) == (
            ClientView {
                repeat: KeyRepeat {
                    characters_per_second: client.repeat.characters_per_second,
                    delay: client.repeat.delay,
                    current_id: client.repeat.current_id,
                    current_keysym: None,
                },
                ..client
            },
            seq![
                Effect::HandleInput {
                    window,
                    input: PlatformInput::KeyUp(
                        KeyUpEvent {
                            keystroke: Keystroke { keycode, modifiers: client.modifiers },
                        },
                    ),
                },
            ],
        ),
{
}

/// Modifier keys, changes that are neither press nor release, and keys that change while
/// no window has the keyboard do nothing.
pub proof fn lemma_other_key_changes_are_ignored(
    client: ClientView,
    keycode: u32,
    key_state: KeyState,
    keysym: u32,
)
    requires
        client.keyboard_focused_window is None || key_state is Other || 0xffe1 <= keysym <= 0xffee
            || 0xfe01 <= keysym <= 0xfe13 || 0xff7e <= keysym <= 0xff7f,
    ensures
        client.step(
            Event::Keyboard(KeyboardEvent::KeyResolved { keycode, key_state, keysym }),
        ) == (client, Seq::<Effect>::empty()),
{
}

/// A key that changes while a window has the keyboard is looked up under its number plus
/// eight, pressed or released as it was; nothing changes yet.
pub proof fn lemma_key_is_looked_up(
    client: ClientView,
    key: u32,
    state: Option<KeyState>,
    keycode: u32,
)
    requires
        keycode == key + 8,
    ensures
        client.step(Event::Keyboard(KeyboardEvent::Key { key, state })) == (
            client,
            if client.keyboard_focused_window is Some && state is Some {
                seq![Effect::LookUpKeysym { keycode, key_state: state->0 }]
            } else {
                Seq::<Effect>::empty()
            },
        ),
{
}

/// The keyboard's focus moves to the surface that it enters, from every earlier focus, and
/// the window is told; on a surface of no window it is lost, and nobody is told.
pub proof fn lemma_keyboard_enters(client: ClientView, surface: ObjectId)
    ensures
        client.step(Event::Keyboard(KeyboardEvent::Enter { surface })) == if exists|i: int|
            0 <= i < client.windows.len() && (#[trigger] client.windows[i]).surface == surface {
            (
                ClientView { keyboard_focused_window: Some(surface), ..client },
                seq![Effect::SetFocused { surface, focused: true }],
            )
        } else {
            (
                ClientView { keyboard_focused_window: None, ..client },
                Seq::<Effect>::empty(),
            )
        },
{
    lemma_surface_is_known(client, surface);
}

/// The keyboard's focus is lost, whichever surface it leaves, and a window of that surface
/// is told.
pub proof fn lemma_keyboard_leaves(client: ClientView, surface: ObjectId)
    ensures
        client.step(Event::Keyboard(KeyboardEvent::Leave { surface })) == (
            ClientView { keyboard_focused_window: None, ..client },
            if exists|i: int|
                0 <= i < client.windows.len() && (#[trigger] client.windows[i]).surface
                    == surface {
                seq![Effect::SetFocused { surface, focused: false }]
            } else {
                Seq::<Effect>::empty()
            },
        ),
{
    lemma_surface_is_known(client, surface);
}

proof fn lemma_surface_is_known(client: ClientView, surface: ObjectId)
    ensures
        client.has_surface(surface) == exists|i: int|
            0 <= i < client.windows.len() && (#[trigger] client.windows[i]).surface == surface,
{
    let names = ids(client.windows, Role::Surface);
    if names.contains(surface) {
        assert(client.windows[names.index_of(surface)].surface == surface);
    }
    if exists|i: int|
        0 <= i < client.windows.len() && (#[trigger] client.windows[i]).surface == surface {
        let i = choose|i: int|
            0 <= i < client.windows.len() && (#[trigger] client.windows[i]).surface == surface;
        assert(names[i] == surface);
    }
}

/// Masks of modifiers go to the keymap's state while a window has the keyboard, the layout
/// as the locked one; nothing changes yet.
pub proof fn lemma_modifier_masks_are_passed_on(
    client: ClientView,
    mods_depressed: u32,
    mods_latched: u32,
    mods_locked: u32,
    group: u32,
)
    ensures
        client.step(
            Event::Keyboard(
                KeyboardEvent::Modifiers { mods_depressed, mods_latched, mods_locked, group },
            ),
        ) == (
            client,
            if client.keyboard_focused_window is Some {
                seq![
                    Effect::UpdateModifierMask {
                        mods_depressed,
                        mods_latched,
                        mods_locked,
                        depressed_layout: 0,
                        latched_layout: 0,
                        locked_layout: group,
                    },
                ]
            } else {
                Seq::<Effect>::empty()
            },
        ),
{
}

/// The modifiers that the keymap reports are taken over one by one, whatever they were
/// before, and are delivered to the window that has the keyboard; without one, nothing
/// changes. The function modifier stays what it was.
pub proof fn lemma_modifiers_are_taken_over(client: ClientView, active: ActiveModifiers)
    ensures
        ({
            let modifiers = Modifiers {
                shift: active.shift,
                control: active.control,
                alt: active.alt,
                function: client.modifiers.function,
                platform: active.logo,
            };
            client.step(Event::Keyboard(KeyboardEvent::ModifiersResolved { active }))
                == match client.keyboard_focused_window {
                Some(window) => (
                    ClientView { modifiers, ..client },
                    seq![
                        Effect::HandleInput {
                            window,
                            input: PlatformInput::ModifiersChanged(
                                ModifiersChangedEvent { modifiers },
                            ),
                        },
                    ],
                ),
                None => (client, Seq::<Effect>::empty()),
            }
        }),
{
}

/// A keymap is loaded when the compositor sends one, and there is one from then on.
pub proof fn lemma_keymap_is_loaded(client: ClientView, format: Option<KeymapFormat>)
    ensures
        client.step(Event::Keyboard(KeyboardEvent::Keymap { format })) == (
            client,
            if format is Some {
                seq![Effect::LoadKeymap]
            } else {
                Seq::<Effect>::empty()
            },
        ),
        client.step(Event::Keyboard(KeyboardEvent::KeymapLoaded)) == (
            ClientView { has_keymap: true, ..client },
            Seq::<Effect>::empty(),
        ),
        client.step(Event::Keyboard(KeyboardEvent::Other)) == (client, Seq::<Effect>::empty()),
{
}

/// The only keyboard events that the client cannot work with: a keymap that is not an XKB
/// one; and, while a window has the keyboard, masks or keys before there is a keymap, a key
/// whose number leaves no room for its keycode, and a press that its count has no room for.
pub proof fn lemma_keyboard_events_that_are_accepted(client: ClientView, event: KeyboardEvent)
    ensures
        client.accepts(Event::Keyboard(event)) == match event {
            KeyboardEvent::Keymap { format } => format is None || format == Some(
                KeymapFormat::XkbV1,
            ),
            KeyboardEvent::Modifiers { .. } => client.keyboard_focused_window is None
                || client.has_keymap,
            KeyboardEvent::Key { key, state } => {
                ||| client.keyboard_focused_window is None
                ||| state is None
                ||| client.has_keymap && key <= 0xffff_fff7
            },
            KeyboardEvent::KeyResolved { keycode, key_state, keysym } => {
                ||| client.keyboard_focused_window is None
                ||| key_state !is Pressed
                ||| 0xffe1 <= keysym <= 0xffee
                ||| 0xfe01 <= keysym <= 0xfe13
                ||| 0xff7e <= keysym <= 0xff7f
                ||| client.repeat.current_id < u64::MAX
            },
            _ => true,
        },
{
}

/// An expired timer repeats exactly while a key repeats, its press was the last one, and a
/// window has the keyboard: that window gets the repetition.
pub proof fn lemma_timer_repeats_for_the_last_press(
    repeat: KeyRepeat,
    id: u64,
    rate: u32,
    focus: Option<u64>,
)
    ensures
        repeat.repeats(id, focus) == (id == repeat.current_id && repeat.current_keysym is Some
            && focus is Some),
        repeat.spec_timeout(id, rate, focus) is Repeat == (id == repeat.current_id
            && repeat.current_keysym is Some && focus is Some),
        repeat.spec_timeout(id, rate, focus) matches TimeoutAction::Repeat { window, .. }
            ==> focus == Some(window),
{
}

/// A timer that repeats expires again after the largest whole number of nanoseconds of
/// which as many as it has characters per second fit into a second.
pub proof fn lemma_repetitions_fill_the_second(
    repeat: KeyRepeat,
    id: u64,
    rate: u32,
    focus: Option<u64>,
)
    requires
        rate > 0,
    ensures
        repeat.spec_timeout(id, rate, focus) matches TimeoutAction::Repeat { nanoseconds, .. }
            ==> nanoseconds * rate <= 1_000_000_000 < (nanoseconds + 1) * rate,
{
    let nanoseconds: int = 1_000_000_000int / (rate as int);
    let whole = rate as int;
    assert(nanoseconds * whole <= 1_000_000_000 < (nanoseconds + 1) * whole) by (nonlinear_arith)
        requires
            whole > 0,
            nanoseconds == 1_000_000_000int / whole,
    ;
}

} // verus!
