use gpui_wayland::click::PressContext;
use gpui_wayland::client::ScrollDirection;
use gpui_wayland::events::{
    ActiveModifiers, AxisRelativeDirection, AxisSource, ButtonState, KeyState, KeyboardEvent,
    OutputEvent, PointerEvent, SurfaceEvent, ToplevelEvent,
};
use gpui_wayland::repeat::TimeoutAction;
use gpui_wayland::{CursorStyle, Effect, Event, PlatformInput, Startup, WaylandClient};

fn client() -> WaylandClient {
    let mut client = WaylandClient::new(Startup {
        outputs: vec![20, 21],
        compositor_version: 5,
        has_viewporter: false,
        has_fractional_scale_manager: false,
        has_decoration_manager: false,
        now: 0,
    });
    client.open_window(1, 2, 3);
    client.open_window(4, 5, 6);
    client
}

fn press(button: u32, state: ButtonState) -> Event {
    let context = PressContext {
        checked_at: 1,
        pressed_at: 1,
        double_click_interval: 400,
        within_click_distance: true,
    };
    Event::Pointer(PointerEvent::Button { button, state: Some(state), context })
}

fn key(key_state: KeyState, keysym: u32) -> Event {
    Event::Keyboard(KeyboardEvent::KeyResolved { keycode: 38, key_state, keysym })
}

fn holds_invariant(client: &WaylandClient) -> bool {
    let open = |surface: u64| client.windows.iter().any(|window| window.surface == surface);
    let bound = |output: &u64| client.outputs.iter().any(|known| known.id == *output);
    client.mouse_focused_window.map_or(true, open)
        && client.keyboard_focused_window.map_or(true, open)
        && client.windows.iter().all(|window| window.outputs.iter().all(bound))
        && (client.button_pressed.is_none() || client.click.current_count >= 1)
        && (client.repeat.current_keysym.is_none() || client.repeat.current_id >= 1)
}

fn story() -> Vec<Event> {
    let active = ActiveModifiers { shift: true, alt: true, control: true, logo: true };
    vec![
        Event::Keyboard(KeyboardEvent::KeymapLoaded),
        Event::Keyboard(KeyboardEvent::Enter { surface: 2 }),
        Event::Pointer(PointerEvent::Enter { serial: 1, surface: 5, surface_x: 3, surface_y: 4 }),
        Event::Surface { surface: 2, version: 5, event: SurfaceEvent::Enter { output: 21 } },
        Event::Surface { surface: 5, version: 5, event: SurfaceEvent::Enter { output: 77 } },
        Event::OutputBound { output: 22 },
        Event::Output { output: 22, event: OutputEvent::Scale { factor: 2 } },
        Event::Keyboard(KeyboardEvent::ModifiersResolved { active }),
        key(KeyState::Pressed, 0x61),
        press(0x111, ButtonState::Pressed),
        Event::Pointer(PointerEvent::Motion { surface_x: 9, surface_y: 9 }),
        press(0x111, ButtonState::Released),
        key(KeyState::Released, 0x61),
        Event::Pointer(PointerEvent::Leave { surface: 5 }),
        Event::Keyboard(KeyboardEvent::Enter { surface: 70 }),
        Event::Toplevel { toplevel: 6, event: ToplevelEvent::Close },
    ]
}

#[test]
fn invariant_holds_throughout() {
    let mut client = client();
    client.run();
    client.set_cursor_style(CursorStyle::OpenHand);
    assert!(holds_invariant(&client));
    for event in story() {
        assert!(client.can_handle(&event));
        client.event(&event);
        assert!(holds_invariant(&client));
    }
    let outputs: Vec<u64> = client.outputs.iter().map(|output| output.id).collect();
    assert_eq!(outputs, vec![20, 21, 22]);
    assert!(client.has_keymap && client.running);
    assert!(!client.modifiers.function);
    assert_eq!(client.repeat.current_id, 1);
    assert_eq!(client.repeat_timeout(1, 16), TimeoutAction::Drop);
}

#[test]
fn input_goes_to_the_focus() {
    let mut client = client();
    for event in story() {
        let keyboard = client.keyboard_focused_window;
        let mouse = client.mouse_focused_window;
        for effect in client.event(&event) {
            if let Effect::HandleInput { window, input } = effect {
                let focus = match input {
                    PlatformInput::KeyDown(_)
                    | PlatformInput::KeyUp(_)
                    | PlatformInput::ModifiersChanged(_) => keyboard,
                    _ => mouse,
                };
                assert_eq!(focus, Some(window));
            }
        }
    }
}

#[test]
fn click_holds_until_the_next_press() {
    let mut client = client();
    for event in story() {
        let before = client.click;
        client.event(&event);
        let pressed = matches!(
            event,
            Event::Pointer(PointerEvent::Button { state: Some(ButtonState::Pressed), .. })
        );
        assert_eq!(client.click != before, pressed);
    }
}

#[test]
fn leaving_undoes_entering() {
    let mut client = client();
    let scale = |output: u64, factor: i32| Event::Output {
        output,
        event: OutputEvent::Scale { factor },
    };
    client.event(&scale(20, 2));
    client.event(&scale(21, 5));
    let on = |event: SurfaceEvent| Event::Surface { surface: 5, version: 4, event };
    client.event(&on(SurfaceEvent::Enter { output: 20 }));
    let outputs = client.windows[1].outputs.clone();
    let entered = client.event(&on(SurfaceEvent::Enter { output: 21 }));
    assert_eq!(entered[1], Effect::SetBufferScale { surface: 5, factor: 5 });
    let left = client.event(&on(SurfaceEvent::Leave { output: 21 }));
    assert_eq!(left[1], Effect::SetBufferScale { surface: 5, factor: 2 });
    assert_eq!(client.windows[1].outputs, outputs);
}

#[test]
fn windows_that_share_a_surface_are_all_served() {
    let mut client = client();
    client.open_window(7, 5, 8);
    let enter = PointerEvent::Enter { serial: 1, surface: 5, surface_x: 0, surface_y: 0 };
    assert_eq!(client.event(&Event::FrameDone { surface: 5 }).len(), 6);
    assert_eq!(client.event(&Event::Pointer(enter)).len(), 6);
    assert_eq!(client.event(&Event::FrameDone { surface: 2 }).len(), 3);
}

#[test]
fn closing_a_focused_window_leaves_the_focus() {
    let mut client = client();
    client.event(&Event::Keyboard(KeyboardEvent::Enter { surface: 2 }));
    client.event(&Event::Toplevel { toplevel: 3, event: ToplevelEvent::Close });
    assert_eq!(client.keyboard_focused_window, Some(2));
    assert!(!holds_invariant(&client));
}

#[test]
fn scroll_settings_hold_until_the_next_report() {
    let mut client = client();
    let direction = Some(AxisRelativeDirection::Inverted);
    client.event(&Event::Pointer(PointerEvent::AxisRelativeDirection { direction }));
    let axis_source = Some(AxisSource::Finger);
    client.event(&Event::Pointer(PointerEvent::AxisSource { axis_source }));
    for event in story() {
        client.event(&event);
        assert_eq!(client.scroll_direction, ScrollDirection::Along);
        assert_eq!(client.axis_source, AxisSource::Finger);
    }
    let direction = Some(AxisRelativeDirection::Identical);
    client.event(&Event::Pointer(PointerEvent::AxisRelativeDirection { direction }));
    assert_eq!(client.scroll_direction, ScrollDirection::Against);
}

#[test]
fn key_change_ends_earlier_timers() {
    let mut client = client();
    client.event(&Event::Keyboard(KeyboardEvent::KeymapLoaded));
    client.event(&Event::Keyboard(KeyboardEvent::Enter { surface: 2 }));
    client.event(&key(KeyState::Pressed, 0x61));
    client.event(&key(KeyState::Released, 0x61));
    assert_eq!(client.repeat_timeout(1, 16), TimeoutAction::Drop);
    client.event(&key(KeyState::Pressed, 0x62));
    assert_eq!(client.repeat_timeout(1, 16), TimeoutAction::Drop);
    assert_ne!(client.repeat_timeout(2, 16), TimeoutAction::Drop);
    client.event(&key(KeyState::Pressed, 0x63));
    for id in [1, 2] {
        assert_eq!(client.repeat_timeout(id, 16), TimeoutAction::Drop);
    }
}
