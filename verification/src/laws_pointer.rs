//! What a pointer does, for every state of the client and every value of the event.

use crate::click::ClickState;
use crate::click::PressContext;
use crate::client::ClientView;
use crate::client::ScrollDirection;
use crate::effects::Effect;
use crate::events::Axis;
use crate::events::AxisRelativeDirection;
use crate::events::AxisSource;
use crate::events::ButtonState;
use crate::events::Event;
use crate::events::ObjectId;
use crate::events::PointerEvent;
use crate::geometry::Point;
use crate::input::Modifiers;
use crate::input::MouseButton;
use crate::input::MouseDownEvent;
use crate::input::MouseMoveEvent;
use crate::input::MouseUpEvent;
use crate::input::NavigationDirection;
use crate::input::PlatformInput;
use crate::input::ScrollDelta;
use crate::input::ScrollWheelEvent;
use crate::input::TouchPhase;
use crate::windows::ids;
use crate::windows::Role;
use crate::windows::WindowView;
use vstd::prelude::*;

verus! {

/// Motion over the window that has the pointer is delivered to it, whether or not a button
/// is held, with the held button and the modifiers of the moment; the cursor's icon is
/// shown again, and the pointer's place is remembered.
pub proof fn lemma_motion_is_delivered(
    client: ClientView,
    window: ObjectId,
    surface_x: i32,
    surface_y: i32,
)
    requires
        client.mouse_focused_window == Some(window),
    ensures
        client.step(Event::Pointer(PointerEvent::Motion { surface_x, surface_y })) == (
            ClientView { mouse_location: Point { x: surface_x, y: surface_y }, ..client },
            seq![
                Effect::HandleInput {
                    window,
                    input: PlatformInput::MouseMove(
                        MouseMoveEvent {
                            position: Point { x: surface_x, y: surface_y },
                            pressed_button: client.button_pressed,
                            modifiers: client.modifiers,
                        },
                    ),
                },
                Effect::SetCursorIcon { icon: client.cursor_icon_name },
            ],
        ),
{
}

/// Entering a surface gives its window the pointer and moves the pointer there; a surface
/// of no window leaves the focus where it was. Nothing else changes.
pub proof fn lemma_enter_moves_the_focus(
    client: ClientView,
    serial: u32,
    surface: ObjectId,
    surface_x: i32,
    surface_y: i32,
)
    ensures
        client.step(
            Event::Pointer(PointerEvent::Enter { serial, surface, surface_x, surface_y }),
        ).0 == (ClientView {
            mouse_location: Point { x: surface_x, y: surface_y },
            mouse_focused_window: if exists|i: int|
                0 <= i < client.windows.len() && (#[trigger] client.windows[i]).surface
                    == surface {
                Some(surface)
            } else {
                client.mouse_focused_window
            },
            ..client
        }),
{
    let names = ids(client.windows, Role::Surface);
    if names.contains(surface) {
        assert(client.windows[names.index_of(surface)].surface == surface);
    }
    if exists|i: int|
        0 <= i < client.windows.len() && (#[trigger] client.windows[i]).surface == surface {
        let i = choose|i: int|
            0 <= i < client.windows.len() && (#[trigger] client.windows[i]).surface == surface;
        assert(names[i] == surface);
    }
}

/// What entering a surface asks: nothing without windows, and for each further window of
/// the surface to take the focus, with the serial of the entry and the icon of the moment.
pub proof fn lemma_enter_tells_each_window(
    client: ClientView,
    serial: u32,
    surface: ObjectId,
    surface_x: i32,
    surface_y: i32,
    window: WindowView,
)
    ensures
        ({
            let event = Event::Pointer(
                PointerEvent::Enter { serial, surface, surface_x, surface_y },
            );
            let more = ClientView { windows: client.windows.push(window), ..client };
            let none = ClientView { windows: Seq::empty(), ..client };
            &&& none.step(event).1 == Seq::<Effect>::empty()
            &&& more.step(event).1 == client.step(event).1 + if window.surface == surface {
                seq![
                    Effect::SetFocused { surface, focused: true },
                    Effect::SetCursorSerial { serial },
                    Effect::SetCursorIcon { icon: client.cursor_icon_name },
                ]
            } else {
                Seq::<Effect>::empty()
            }
        }),
{
    assert(client.windows.push(window).drop_last() =~= client.windows);
}

/// Leaving tells the window that had the pointer that the pointer is gone, with no button
/// and no modifier, and that it lost the focus. Nothing else changes, whatever surface the
/// event names.
pub proof fn lemma_leave_takes_the_focus(client: ClientView, surface: ObjectId)
    ensures
        client.step(Event::Pointer(PointerEvent::Leave { surface })) == (
            ClientView { mouse_focused_window: None, ..client },
            match client.mouse_focused_window {
                Some(window) => seq![
                    Effect::HandleInput {
                        window,
                        input: PlatformInput::MouseMove(
                            MouseMoveEvent {
                                position: Point { x: 0, y: 0 },
                                pressed_button: None,
                                modifiers: Modifiers {
                                    shift: false,
                                    control: false,
                                    alt: false,
                                    function: false,
                                    platform: false,
                                },
                            },
                        ),
                    },
                    Effect::SetFocused { surface: window, focused: false },
                ],
                None => Seq::<Effect>::empty(),
            },
        ),
{
}

/// The press of a button is delivered to the window that has the pointer, and remembered
/// with its time and place. It is one more click where it comes before the interval since
/// the last press is over and near enough, and the first of a new click otherwise.
pub proof fn lemma_press_is_counted_by_the_clock(
    client: ClientView,
    window: ObjectId,
    number: u32,
    button: MouseButton,
    context: PressContext,
    count: usize,
)
    requires
        client.mouse_focused_window == Some(window),
        number == 0x110 && button == MouseButton::Left || number == 0x111 && button
            == MouseButton::Right || number == 0x112 && button == MouseButton::Middle || (number
            == 0x113 || number == 0x116) && button == MouseButton::Navigate(
            NavigationDirection::Back,
        ) || (number == 0x114 || number == 0x115) && button == MouseButton::Navigate(
            NavigationDirection::Forward,
        ),
        count == if context.within_click_distance && context.double_click_interval > 0
            && context.checked_at < client.click.last_click + context.double_click_interval {
            client.click.current_count + 1
        } else {
            1
        },
    ensures
        client.step(
            Event::Pointer(
                PointerEvent::Button {
                    button: number,
                    state: Some(ButtonState::Pressed),
                    context,
                },
            ),
        ) == (
            ClientView {
                click: ClickState {
                    last_click: context.pressed_at,
                    last_location: client.mouse_location,
                    current_count: count,
                },
                button_pressed: Some(button),
                ..client
            },
            seq![
                Effect::HandleInput {
                    window,
                    input: PlatformInput::MouseDown(
                        MouseDownEvent {
                            button,
                            position: client.mouse_location,
                            modifiers: client.modifiers,
                            click_count: count,
                            first_mouse: false,
                        },
                    ),
                },
            ],
        ),
{
}

/// The release of a button is delivered to the window that has the pointer, with the count
/// of the click; no button is held after it, and nothing else changes.
pub proof fn lemma_release_is_delivered(
    client: ClientView,
    window: ObjectId,
    number: u32,
    button: MouseButton,
    context: PressContext,
)
    requires
        client.mouse_focused_window == Some(window),
        number == 0x110 && button == MouseButton::Left || number == 0x111 && button
            == MouseButton::Right || number == 0x112 && button == MouseButton::Middle || (number
            == 0x113 || number == 0x116) && button == MouseButton::Navigate(
            NavigationDirection::Back,
        ) || (number == 0x114 || number == 0x115) && button == MouseButton::Navigate(
            NavigationDirection::Forward,
        ),
    ensures
        client.step(
            Event::Pointer(
                PointerEvent::Button {
                    button: number,
                    state: Some(ButtonState::Released),
                    context,
                },
            ),
        ) == (
            ClientView { button_pressed: None, ..client },
            seq![
                Effect::HandleInput {
                    window,
                    input: PlatformInput::MouseUp(
                        MouseUpEvent {
                            button,
                            position: client.mouse_location,
                            modifiers: client.modifiers,
                            click_count: client.click.current_count,
                        },
                    ),
                },
            ],
        ),
{
}

/// Buttons of other numbers, changes that are neither press nor release, and buttons that
/// change while no window has the pointer do nothing.
pub proof fn lemma_other_button_changes_are_ignored(
    client: ClientView,
    button: u32,
    state: Option<ButtonState>,
    context: PressContext,
)
    requires
        client.mouse_focused_window is None || button < 0x110 || button > 0x116 || state is None
            || state == Some(ButtonState::Other),
    ensures
        client.step(Event::Pointer(PointerEvent::Button { button, state, context })) == (
            client,
            Seq::<Effect>::empty(),
        ),
{
}

/// A report of the axis' direction is taken over from every state: content moves along an
/// inverted axis and against any other. Nothing else changes.
pub proof fn lemma_direction_report_is_taken_over(
    client: ClientView,
    direction: Option<AxisRelativeDirection>,
)
    ensures
        client.step(Event::Pointer(PointerEvent::AxisRelativeDirection { direction })) == (
            ClientView {
                scroll_direction: if direction == Some(AxisRelativeDirection::Inverted) {
                    ScrollDirection::Along
                } else if direction is Some {
                    ScrollDirection::Against
                } else {
                    client.scroll_direction
                },
                ..client
            },
            Seq::<Effect>::empty(),
        ),
{
}

/// A report of the source of scrolls is taken over from every earlier source. Nothing else
/// changes.
pub proof fn lemma_source_report_is_taken_over(
    client: ClientView,
    axis_source: Option<AxisSource>,
)
    ensures
        client.step(Event::Pointer(PointerEvent::AxisSource { axis_source })) == (
            ClientView {
                axis_source: match axis_source {
                    Some(source) => source,
                    None => client.axis_source,
                },
                ..client
            },
            Seq::<Effect>::empty(),
        ),
{
}

/// Once the wheel is reported as the source, whatever was reported before, the notches of a
/// pointer that counts in 120ths are not delivered a second time.
pub proof fn lemma_notch_is_not_delivered_twice(
    client: ClientView,
    axis: Option<Axis>,
    value: i32,
    version: u32,
)
    requires
        version >= 8,
    ensures
        ({
            let told = client.step(
                Event::Pointer(PointerEvent::AxisSource { axis_source: Some(AxisSource::Wheel) }),
            ).0;
            told.step(Event::Pointer(PointerEvent::Axis { axis, value, version })) == (
                told,
                Seq::<Effect>::empty(),
            )
        }),
{
}

/// Scrolling in 120ths moves the content by as many pixels as there are 120ths, along the
/// reported axis alone, in the reported direction. It is delivered to the window that has
/// the pointer, and changes nothing.
pub proof fn lemma_notches_are_delivered(
    client: ClientView,
    window: ObjectId,
    axis: Axis,
    value120: i32,
)
    requires
        client.mouse_focused_window == Some(window),
        axis is VerticalScroll || axis is HorizontalScroll,
    ensures
        ({
            let moved = if client.scroll_direction is Along {
                256 * value120
            } else {
                -256 * value120
            };
            client.step(
                Event::Pointer(PointerEvent::AxisValue120 { axis: Some(axis), value120 }),
            ) == (
                client,
                seq![
                    Effect::HandleInput {
                        window,
                        input: PlatformInput::ScrollWheel(
                            ScrollWheelEvent {
                                position: client.mouse_location,
                                delta: if axis is VerticalScroll {
                                    ScrollDelta { x: 0, y: moved as i64 }
                                } else {
                                    ScrollDelta { x: moved as i64, y: 0 }
                                },
                                modifiers: client.modifiers,
                                touch_phase: TouchPhase::Moved,
                            },
                        ),
                    },
                ],
            )
        }),
{
    lemma_factors(value120 as int * 256);
}

proof fn lemma_factors(distance: int)
    ensures
        distance * ScrollDirection::Along.factor() == distance,
        distance * ScrollDirection::Against.factor() == -distance,
{
    let along = ScrollDirection::Along.factor();
    let against = ScrollDirection::Against.factor();
    assert(distance * along == distance && distance * against == -distance) by (nonlinear_arith)
        requires
            along == 1,
            against == -1,
    ;
}

/// Scrolling by a distance moves the content by that distance, along the reported axis
/// alone, in the reported direction, unless it is a notch that is reported in 120ths too.
/// It is delivered to the window that has the pointer, and changes nothing.
pub proof fn lemma_distances_are_delivered(
    client: ClientView,
    window: ObjectId,
    axis: Axis,
    value: i32,
    version: u32,
)
    requires
        client.mouse_focused_window == Some(window),
        axis is VerticalScroll || axis is HorizontalScroll,
    ensures
        ({
            let moved = if client.scroll_direction is Along {
                value as int
            } else {
                -value
            };
            client.step(Event::Pointer(PointerEvent::Axis { axis: Some(axis), value, version }))
                == (
                client,
                if version >= 8 && client.axis_source is Wheel {
                    Seq::<Effect>::empty()
                } else {
                    seq![
                        Effect::HandleInput {
                            window,
                            input: PlatformInput::ScrollWheel(
                                ScrollWheelEvent {
                                    position: client.mouse_location,
                                    delta: if axis is VerticalScroll {
                                        ScrollDelta { x: 0, y: moved as i64 }
                                    } else {
                                        ScrollDelta { x: moved as i64, y: 0 }
                                    },
                                    modifiers: client.modifiers,
                                    touch_phase: TouchPhase::Moved,
                                },
                            ),
                        },
                    ]
                },
            )
        }),
{
    lemma_factors(value as int);
}

/// Scrolls along an axis without a name, and scrolls and motion while no window has the
/// pointer, do nothing; nor do events of no interest.
pub proof fn lemma_idle_pointer_events(client: ClientView, event: PointerEvent)
    requires
        event is Other || (client.mouse_focused_window is None && event is Motion) || (event
            matches PointerEvent::AxisValue120 { axis, .. } && (axis is None
            || client.mouse_focused_window is None)) || (event matches PointerEvent::Axis {
            axis,
            ..
        } && (axis is None || client.mouse_focused_window is None)),
    ensures
        client.step(Event::Pointer(event)) == (client, Seq::<Effect>::empty()),
{
}

/// The only pointer events that the client cannot work with, all while a window has the
/// pointer: a press that its count has no room for, and a scroll along an axis that is
/// neither vertical nor horizontal, unless it is left aside anyway.
pub proof fn lemma_pointer_events_that_are_accepted(client: ClientView, event: PointerEvent)
    ensures
        client.accepts(Event::Pointer(event)) == (client.mouse_focused_window is None
            || match event {
            PointerEvent::Button { button, state, context } => {
                ||| state != Some(ButtonState::Pressed)
                ||| button < 0x110
                ||| button > 0x116
                ||| client.click.current_count < usize::MAX
                ||| !context.within_click_distance
                ||| context.double_click_interval == 0
                ||| context.checked_at >= client.click.last_click + context.double_click_interval
            },
            PointerEvent::AxisValue120 { axis, value120 } => axis != Some(Axis::Other),
            PointerEvent::Axis { axis, value, version } => axis != Some(Axis::Other) || (version
                >= 8 && client.axis_source is Wheel),
            _ => true,
        }),
{
}

} // verus!
