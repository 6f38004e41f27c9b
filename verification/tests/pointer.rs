use gpui_wayland::click::PressContext;
use gpui_wayland::events::{
    Axis, AxisRelativeDirection, AxisSource, ButtonState, PointerEvent,
};
use gpui_wayland::input::{
    Modifiers, MouseButton, MouseDownEvent, MouseMoveEvent, MouseUpEvent, ScrollDelta,
    ScrollWheelEvent, TouchPhase,
};
use gpui_wayland::{CursorStyle, Effect, Event, PlatformInput, Point, Startup, WaylandClient};
use wayland_client::protocol::wl_pointer;

const LEFT: u32 = 0x110;

/// A client with the windows (1, 2, 3) and (4, 5, 6), and the pointer on neither.
fn idle_client() -> WaylandClient {
    let mut client = WaylandClient::new(Startup {
        outputs: Vec::new(),
        compositor_version: 5,
        has_viewporter: false,
        has_fractional_scale_manager: false,
        has_decoration_manager: false,
        now: 0,
    });
    client.open_window(1, 2, 3);
    client.open_window(4, 5, 6);
    client
}

/// The client with the pointer at (1, 2) of the first window.
fn client() -> WaylandClient {
    let mut client = idle_client();
    send(&mut client, enter(2, 256, 512));
    client
}

fn send(client: &mut WaylandClient, event: PointerEvent) -> Vec<Effect> {
    let event = Event::Pointer(event);
    assert!(client.can_handle(&event));
    client.event(&event)
}

fn enter(surface: u64, surface_x: i32, surface_y: i32) -> PointerEvent {
    PointerEvent::Enter { serial: 31, surface, surface_x, surface_y }
}

fn context(time: u128) -> PressContext {
    PressContext {
        checked_at: time,
        pressed_at: time,
        double_click_interval: 400,
        within_click_distance: true,
    }
}

fn button(button: u32, state: ButtonState, time: u128) -> PointerEvent {
    PointerEvent::Button { button, state: Some(state), context: context(time) }
}

fn scrolled(window: u64, x: i64, y: i64) -> Vec<Effect> {
    vec![Effect::HandleInput {
        window,
        input: PlatformInput::ScrollWheel(ScrollWheelEvent {
            position: Point { x: 256, y: 512 },
            delta: ScrollDelta { x, y },
            modifiers: Modifiers::default(),
            touch_phase: TouchPhase::Moved,
        }),
    }]
}

#[test]
fn entering_takes_the_focus() {
    let mut client = idle_client();
    client.set_cursor_style(CursorStyle::IBeam);
    assert_eq!(
        send(&mut client, enter(5, 300, -4)),
        vec![
            Effect::SetFocused { surface: 5, focused: true },
            Effect::SetCursorSerial { serial: 31 },
            Effect::SetCursorIcon { icon: "text" },
        ]
    );
    assert_eq!(client.mouse_focused_window, Some(5));
    assert_eq!(client.mouse_location, Point { x: 300, y: -4 });
}

#[test]
fn entering_an_unknown_surface_moves_the_pointer_only() {
    let mut client = client();
    assert_eq!(send(&mut client, enter(9, 7, 8)), Vec::new());
    assert_eq!(client.mouse_focused_window, Some(2));
    assert_eq!(client.mouse_location, Point { x: 7, y: 8 });
}

#[test]
fn motion_is_delivered() {
    let mut client = client();
    let modifiers = Modifiers { alt: true, ..Modifiers::default() };
    client.modifiers = modifiers;
    send(&mut client, button(LEFT, ButtonState::Pressed, 1));
    assert_eq!(
        send(&mut client, PointerEvent::Motion { surface_x: 10, surface_y: 11 }),
        vec![
            Effect::HandleInput {
                window: 2,
                input: PlatformInput::MouseMove(MouseMoveEvent {
                    position: Point { x: 10, y: 11 },
                    pressed_button: Some(MouseButton::Left),
                    modifiers,
                }),
            },
            Effect::SetCursorIcon { icon: "arrow" },
        ]
    );
}

#[test]
fn press_and_release_agree() {
    let mut client = client();
    let down = |click_count: usize| {
        vec![Effect::HandleInput {
            window: 2,
            input: PlatformInput::MouseDown(MouseDownEvent {
                button: MouseButton::Left,
                position: Point { x: 256, y: 512 },
                modifiers: Modifiers::default(),
                click_count,
                first_mouse: false,
            }),
        }]
    };
    let up = |click_count: usize| {
        vec![Effect::HandleInput {
            window: 2,
            input: PlatformInput::MouseUp(MouseUpEvent {
                button: MouseButton::Left,
                position: Point { x: 256, y: 512 },
                modifiers: Modifiers::default(),
                click_count,
            }),
        }]
    };
    assert_eq!(send(&mut client, button(LEFT, ButtonState::Pressed, 1_000)), down(1));
    assert_eq!(client.button_pressed, Some(MouseButton::Left));
    assert_eq!(send(&mut client, button(LEFT, ButtonState::Released, 1_100)), up(1));
    assert_eq!(client.button_pressed, None);
    assert_eq!(send(&mut client, button(LEFT, ButtonState::Pressed, 1_200)), down(2));
    assert_eq!(send(&mut client, button(LEFT, ButtonState::Released, 9_000)), up(2));
    assert_eq!(send(&mut client, button(LEFT, ButtonState::Pressed, 9_100)), down(1));
    assert_eq!(client.click.last_click, 9_100);
    assert_eq!(client.click.last_location, Point { x: 256, y: 512 });
}

#[test]
fn other_buttons_and_states_are_ignored() {
    let mut client = client();
    assert_eq!(send(&mut client, button(0x120, ButtonState::Pressed, 1)), Vec::new());
    assert_eq!(send(&mut client, button(LEFT, ButtonState::Other, 1)), Vec::new());
    let unnamed = PointerEvent::Button { button: LEFT, state: None, context: context(1) };
    assert_eq!(send(&mut client, unnamed), Vec::new());
    assert_eq!(send(&mut client, PointerEvent::Other), Vec::new());
    assert_eq!(client.click.current_count, 0);
    assert_eq!(client.button_pressed, None);
}

#[test]
fn wheel_scrolls_once() {
    let mut client = client();
    let since = wl_pointer::EVT_AXIS_VALUE120_SINCE;
    assert_eq!(since, 8);
    let vertical = Some(Axis::VerticalScroll);
    let notch = PointerEvent::AxisValue120 { axis: vertical, value120: 120 };
    assert_eq!(send(&mut client, notch), scrolled(2, 0, -120 * 256));
    let axis = |version: u32| PointerEvent::Axis { axis: vertical, value: 2_560, version };
    assert_eq!(send(&mut client, axis(since)), Vec::new());
    assert_eq!(send(&mut client, axis(since - 1)), scrolled(2, 0, -2_560));
}

#[test]
fn fingers_scroll_both_ways() {
    let mut client = client();
    let finger = PointerEvent::AxisSource { axis_source: Some(AxisSource::Finger) };
    assert_eq!(send(&mut client, finger), Vec::new());
    let axis = |axis: Axis| PointerEvent::Axis { axis: Some(axis), value: 100, version: 9 };
    assert_eq!(send(&mut client, axis(Axis::VerticalScroll)), scrolled(2, 0, -100));
    assert_eq!(send(&mut client, axis(Axis::HorizontalScroll)), scrolled(2, -100, 0));
    assert_eq!(
        send(&mut client, PointerEvent::Axis { axis: None, value: 100, version: 9 }),
        Vec::new()
    );
    assert_eq!(send(&mut client, PointerEvent::AxisSource { axis_source: None }), Vec::new());
    assert_eq!(client.axis_source, AxisSource::Finger);
}

#[test]
fn inverted_axis_turns_the_scroll_round() {
    let mut client = client();
    let direction = |direction: Option<AxisRelativeDirection>| {
        PointerEvent::AxisRelativeDirection { direction }
    };
    let notch = PointerEvent::AxisValue120 {
        axis: Some(Axis::HorizontalScroll),
        value120: i32::MIN,
    };
    let far = 0x80_0000_0000i64;
    assert_eq!(send(&mut client, notch), scrolled(2, far, 0));
    send(&mut client, direction(Some(AxisRelativeDirection::Inverted)));
    assert_eq!(send(&mut client, notch), scrolled(2, -far, 0));
    send(&mut client, direction(None));
    assert_eq!(send(&mut client, notch), scrolled(2, -far, 0));
    send(&mut client, direction(Some(AxisRelativeDirection::Identical)));
    assert_eq!(send(&mut client, notch), scrolled(2, far, 0));
    send(&mut client, direction(Some(AxisRelativeDirection::Inverted)));
    send(&mut client, direction(Some(AxisRelativeDirection::Other)));
    assert_eq!(send(&mut client, notch), scrolled(2, far, 0));
}

#[test]
fn leaving_ends_the_focus() {
    let mut client = client();
    client.modifiers.shift = true;
    send(&mut client, button(LEFT, ButtonState::Pressed, 1));
    assert_eq!(
        send(&mut client, PointerEvent::Leave { surface: 2 }),
        vec![
            Effect::HandleInput {
                window: 2,
                input: PlatformInput::MouseMove(MouseMoveEvent {
                    position: Point { x: 0, y: 0 },
                    pressed_button: None,
                    modifiers: Modifiers::default(),
                }),
            },
            Effect::SetFocused { surface: 2, focused: false },
        ]
    );
    assert_eq!(client.mouse_focused_window, None);
    assert_eq!(send(&mut client, PointerEvent::Leave { surface: 2 }), Vec::new());
}

#[test]
fn without_focus_the_pointer_is_idle() {
    let mut client = idle_client();
    let motion = PointerEvent::Motion { surface_x: 1, surface_y: 1 };
    assert_eq!(send(&mut client, motion), Vec::new());
    assert_eq!(client.mouse_location, Point { x: 0, y: 0 });
    assert_eq!(send(&mut client, button(LEFT, ButtonState::Pressed, 1)), Vec::new());
    assert_eq!(client.click.current_count, 0);
    let notch = PointerEvent::AxisValue120 { axis: Some(Axis::Other), value120: 1 };
    assert_eq!(send(&mut client, notch), Vec::new());
    let axis = PointerEvent::Axis { axis: Some(Axis::Other), value: 1, version: 1 };
    assert_eq!(send(&mut client, axis), Vec::new());
}

#[test]
fn other_axes_cannot_be_handled() {
    let client = client();
    let notch = PointerEvent::AxisValue120 { axis: Some(Axis::Other), value120: 1 };
    assert!(!client.can_handle(&Event::Pointer(notch)));
    let axis = |version: u32| {
        Event::Pointer(PointerEvent::Axis { axis: Some(Axis::Other), value: 1, version })
    };
    assert!(!client.can_handle(&axis(7)));
    assert!(client.can_handle(&axis(8)));
}

#[test]
fn full_click_count_cannot_be_raised() {
    let mut client = client();
    client.click.current_count = usize::MAX;
    let press = Event::Pointer(button(LEFT, ButtonState::Pressed, 1));
    assert!(!client.can_handle(&press));
    let late = Event::Pointer(button(LEFT, ButtonState::Pressed, 1_000));
    assert!(client.can_handle(&late));
}
