use gpui_wayland::events::{ActiveModifiers, KeyState, KeyboardEvent, KeymapFormat};
use gpui_wayland::input::{
    KeyDownEvent, KeyUpEvent, Keystroke, Modifiers, ModifiersChangedEvent,
};
use gpui_wayland::repeat::{RepeatTimer, TimeoutAction};
use gpui_wayland::{Effect, Event, PlatformInput, Startup, WaylandClient};
use xkeysym::key;

/// A client with the window (1, 2, 3), a keymap, and the keyboard on the window.
fn client() -> WaylandClient {
    let mut client = WaylandClient::new(Startup {
        outputs: Vec::new(),
        compositor_version: 5,
        has_viewporter: false,
        has_fractional_scale_manager: false,
        has_decoration_manager: false,
        now: 0,
    });
    client.open_window(1, 2, 3);
    send(&mut client, KeyboardEvent::KeymapLoaded);
    send(&mut client, KeyboardEvent::Enter { surface: 2 });
    client
}

fn send(client: &mut WaylandClient, event: KeyboardEvent) -> Vec<Effect> {
    let event = Event::Keyboard(event);
    assert!(client.can_handle(&event));
    client.event(&event)
}

fn resolved(keycode: u32, key_state: KeyState, keysym: u32) -> KeyboardEvent {
    KeyboardEvent::KeyResolved { keycode, key_state, keysym }
}

const CONTROL: ActiveModifiers =
    ActiveModifiers { shift: false, alt: false, control: true, logo: false };

#[test]
fn keymap_is_loaded() {
    let mut client = client();
    client.has_keymap = false;
    let xkb = KeyboardEvent::Keymap { format: Some(KeymapFormat::XkbV1) };
    assert_eq!(send(&mut client, xkb), vec![Effect::LoadKeymap]);
    assert!(!client.has_keymap);
    assert_eq!(send(&mut client, KeyboardEvent::KeymapLoaded), Vec::new());
    assert!(client.has_keymap);
    assert_eq!(send(&mut client, KeyboardEvent::Keymap { format: None }), Vec::new());
}

#[test]
fn only_xkb_keymaps_can_be_handled() {
    let client = client();
    for format in [KeymapFormat::NoKeymap, KeymapFormat::Other] {
        let event = Event::Keyboard(KeyboardEvent::Keymap { format: Some(format) });
        assert!(!client.can_handle(&event));
    }
}

#[test]
fn focus_follows_the_keyboard() {
    let mut client = client();
    client.open_window(4, 5, 6);
    assert_eq!(
        send(&mut client, KeyboardEvent::Enter { surface: 5 }),
        vec![Effect::SetFocused { surface: 5, focused: true }]
    );
    assert_eq!(client.keyboard_focused_window, Some(5));
    assert_eq!(
        send(&mut client, KeyboardEvent::Leave { surface: 5 }),
        vec![Effect::SetFocused { surface: 5, focused: false }]
    );
    assert_eq!(client.keyboard_focused_window, None);
    assert_eq!(send(&mut client, KeyboardEvent::Leave { surface: 9 }), Vec::new());
}

#[test]
fn unknown_surface_takes_the_focus_away() {
    let mut client = client();
    assert_eq!(send(&mut client, KeyboardEvent::Enter { surface: 9 }), Vec::new());
    assert_eq!(client.keyboard_focused_window, None);
}

#[test]
fn modifiers_go_through_the_keymap() {
    let mut client = client();
    let event = KeyboardEvent::Modifiers {
        mods_depressed: 1,
        mods_latched: 2,
        mods_locked: 3,
        group: 4,
    };
    assert_eq!(
        send(&mut client, event),
        vec![Effect::UpdateModifierMask {
            mods_depressed: 1,
            mods_latched: 2,
            mods_locked: 3,
            depressed_layout: 0,
            latched_layout: 0,
            locked_layout: 4,
        }]
    );
    client.modifiers.function = true;
    let active = ActiveModifiers { shift: true, alt: false, control: true, logo: true };
    let modifiers = Modifiers {
        shift: true,
        control: true,
        alt: false,
        function: true,
        platform: true,
    };
    assert_eq!(
        send(&mut client, KeyboardEvent::ModifiersResolved { active }),
        vec![Effect::HandleInput {
            window: 2,
            input: PlatformInput::ModifiersChanged(ModifiersChangedEvent { modifiers }),
        }]
    );
    assert_eq!(client.modifiers, modifiers);
}

#[test]
fn key_goes_through_the_keymap() {
    let mut client = client();
    let event = KeyboardEvent::Key { key: 30, state: Some(KeyState::Pressed) };
    assert_eq!(
        send(&mut client, event),
        vec![Effect::LookUpKeysym { keycode: 38, key_state: KeyState::Pressed }]
    );
    assert_eq!(send(&mut client, KeyboardEvent::Key { key: 30, state: None }), Vec::new());
}

#[test]
fn press_is_delivered_and_repeats() {
    let mut client = client();
    send(&mut client, KeyboardEvent::RepeatInfo { rate: 25, delay: 600 });
    send(&mut client, KeyboardEvent::ModifiersResolved { active: CONTROL });
    let input = PlatformInput::KeyDown(KeyDownEvent {
        keystroke: Keystroke { keycode: 38, modifiers: client.modifiers },
        is_held: false,
    });
    assert!(client.modifiers.control);
    assert_eq!(
        send(&mut client, resolved(38, KeyState::Pressed, key::a)),
        vec![
            Effect::ArmRepeat { timer: RepeatTimer { id: 1, rate: 25, delay: 600 }, input },
            Effect::HandleInput { window: 2, input },
        ]
    );
    assert_eq!(client.repeat.current_keysym, Some(key::a));
    assert_eq!(
        client.repeat_timeout(1, 25),
        TimeoutAction::Repeat { window: 2, nanoseconds: 40_000_000 }
    );
}

#[test]
fn release_is_delivered_and_ends_the_repetition() {
    let mut client = client();
    send(&mut client, resolved(38, KeyState::Pressed, key::a));
    let keystroke = Keystroke { keycode: 38, modifiers: Modifiers::default() };
    assert_eq!(
        send(&mut client, resolved(38, KeyState::Released, key::a)),
        vec![Effect::HandleInput {
            window: 2,
            input: PlatformInput::KeyUp(KeyUpEvent { keystroke }),
        }]
    );
    assert_eq!(client.repeat_timeout(1, 16), TimeoutAction::Drop);
}

#[test]
fn superseded_timer_never_repeats() {
    let mut client = client();
    send(&mut client, resolved(38, KeyState::Pressed, key::a));
    send(&mut client, resolved(39, KeyState::Pressed, key::s));
    assert_eq!(client.repeat_timeout(1, 16), TimeoutAction::Drop);
    send(&mut client, resolved(39, KeyState::Released, key::s));
    send(&mut client, resolved(38, KeyState::Pressed, key::a));
    assert_eq!(client.repeat_timeout(1, 16), TimeoutAction::Drop);
    assert_eq!(client.repeat_timeout(2, 16), TimeoutAction::Drop);
    assert_eq!(
        client.repeat_timeout(3, 16),
        TimeoutAction::Repeat { window: 2, nanoseconds: 62_500_000 }
    );
}

#[test]
fn repetition_follows_the_focus() {
    let mut client = client();
    client.open_window(4, 5, 6);
    send(&mut client, resolved(38, KeyState::Pressed, key::a));
    send(&mut client, KeyboardEvent::Leave { surface: 2 });
    assert_eq!(client.repeat_timeout(1, 16), TimeoutAction::Drop);
    send(&mut client, KeyboardEvent::Enter { surface: 5 });
    assert_eq!(
        client.repeat_timeout(1, 16),
        TimeoutAction::Repeat { window: 5, nanoseconds: 62_500_000 }
    );
}

#[test]
fn modifier_keys_are_silent() {
    let mut client = client();
    send(&mut client, resolved(38, KeyState::Pressed, key::a));
    for keysym in [
        key::Shift_L,
        key::Control_R,
        key::Hyper_R,
        key::ISO_Lock,
        key::ISO_Level3_Shift,
        key::ISO_Level5_Lock,
        key::Mode_switch,
        key::Num_Lock,
    ] {
        assert_eq!(send(&mut client, resolved(50, KeyState::Pressed, keysym)), Vec::new());
        assert_eq!(send(&mut client, resolved(50, KeyState::Released, keysym)), Vec::new());
    }
    assert_eq!(client.repeat.current_id, 1);
    assert_eq!(client.repeat.current_keysym, Some(key::a));
    for keysym in [key::Shift_L - 1, key::Hyper_R + 1, key::ISO_Lock - 1, key::ISO_Level5_Lock + 1] {
        assert_eq!(send(&mut client, resolved(50, KeyState::Pressed, keysym)).len(), 2);
    }
    assert_eq!(send(&mut client, resolved(50, KeyState::Other, key::a)), Vec::new());
}

#[test]
fn without_focus_keys_are_ignored() {
    let mut client = client();
    send(&mut client, KeyboardEvent::Leave { surface: 2 });
    client.has_keymap = false;
    let modifiers = KeyboardEvent::Modifiers {
        mods_depressed: 1,
        mods_latched: 0,
        mods_locked: 0,
        group: 0,
    };
    assert_eq!(send(&mut client, modifiers), Vec::new());
    let active = KeyboardEvent::ModifiersResolved { active: CONTROL };
    assert_eq!(send(&mut client, active), Vec::new());
    assert!(!client.modifiers.control);
    let pressed = KeyboardEvent::Key { key: u32::MAX, state: Some(KeyState::Pressed) };
    assert_eq!(send(&mut client, pressed), Vec::new());
    assert_eq!(send(&mut client, resolved(38, KeyState::Pressed, key::a)), Vec::new());
    assert_eq!(client.repeat.current_id, 0);
}

#[test]
fn keys_need_a_keymap_and_a_keycode() {
    let mut client = client();
    let key = |key: u32| Event::Keyboard(KeyboardEvent::Key { key, state: Some(KeyState::Pressed) });
    assert!(client.can_handle(&key(u32::MAX - 8)));
    assert!(!client.can_handle(&key(u32::MAX - 7)));
    client.has_keymap = false;
    assert!(!client.can_handle(&key(30)));
    let modifiers = Event::Keyboard(KeyboardEvent::Modifiers {
        mods_depressed: 0,
        mods_latched: 0,
        mods_locked: 0,
        group: 0,
    });
    assert!(!client.can_handle(&modifiers));
    client.repeat.current_id = u64::MAX;
    let pressed = Event::Keyboard(resolved(38, KeyState::Pressed, key::a));
    assert!(!client.can_handle(&pressed));
    let released = Event::Keyboard(resolved(38, KeyState::Released, key::a));
    assert!(client.can_handle(&released));
    assert_eq!(send(&mut client, KeyboardEvent::Other), Vec::new());
}
