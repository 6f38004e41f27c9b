//! What holds of a client's answers.

use crate::click::PressContext;
use crate::client::ClientView;
use crate::client::ScrollDirection;
use crate::effects::Effect;
use crate::events::ActiveModifiers;
use crate::events::Axis;
use crate::events::ButtonState;
use crate::events::Event;
use crate::events::KeyState;
use crate::events::KeyboardEvent;
use crate::events::ObjectId;
use crate::events::PointerEvent;
use crate::events::SurfaceEvent;
use crate::events::ToplevelEvent;
use crate::geometry::Point;
use crate::geometry::FIXED_PER_PIXEL;
use crate::input::spec_mouse_button;
use crate::input::KeyDownEvent;
use crate::input::KeyUpEvent;
use crate::input::Keystroke;
use crate::input::Modifiers;
use crate::input::ModifiersChangedEvent;
use crate::input::MouseDownEvent;
use crate::input::MouseMoveEvent;
use crate::input::MouseUpEvent;
use crate::input::PlatformInput;
use crate::input::ScrollDelta;
use crate::input::ScrollWheelEvent;
use crate::input::TouchPhase;
use crate::keyboard::MIN_KEYCODE;
use crate::pointer::enter_effects;
use crate::protocol::spec_axis_value120_since;
use crate::protocol::spec_is_modifier_key;
use crate::protocol::spec_preferred_buffer_scale_since;
use crate::protocol::spec_set_buffer_scale_since;
use crate::shell::destroy_effects;
use crate::surface::frame_effects;
use crate::windows::entered_scale;
use crate::windows::first_window;
use crate::windows::for_each_window;
use crate::windows::ids;
use crate::windows::lemma_entered_scale_is_largest;
use crate::windows::output_ids;
use crate::windows::Role;
use crate::windows::WindowView;
use vstd::prelude::*;

verus! {

proof fn lemma_for_each_window_repeats(
    windows: Seq<WindowView>,
    surface: ObjectId,
    effects: Seq<Effect>,
    effect: Effect,
)
    requires
        for_each_window(windows, surface, effects).contains(effect),
    ensures
        effects.contains(effect),
    decreases windows.len(),
{
    let all = for_each_window(windows, surface, effects);
    let front = for_each_window(windows.drop_last(), surface, effects);
    let i = all.index_of(effect);
    if windows.last().surface == surface && i >= front.len() {
        assert(effects[i - front.len()] == effect);
    } else {
        assert(front[i] == effect);
        lemma_for_each_window_repeats(windows.drop_last(), surface, effects, effect);
    }
}

/// Input reaches a window only while it has the focus: what a keyboard event delivers goes
/// to the window that has the keyboard, what a pointer event delivers to the window that
/// has the pointer, and no other event delivers any.
pub proof fn lemma_input_goes_to_the_focus(
    client: ClientView,
    event: Event,
    window: ObjectId,
    input: PlatformInput,
)
    requires
        client.step(event).1.contains(Effect::HandleInput { window, input }),
    ensures
        (event is Keyboard && client.keyboard_focused_window == Some(window)) || (event is Pointer
            && client.mouse_focused_window == Some(window)),
{
    let effect = Effect::HandleInput { window, input };
    let effects = client.step(event).1;
    let i = effects.index_of(effect);
    assert(effects[i] == effect);
    match event {
        Event::FrameDone { surface } => {
            lemma_for_each_window_repeats(
                client.windows,
                surface,
                frame_effects(surface),
                effect,
            );
        },
        Event::Pointer(PointerEvent::Enter { serial, surface, .. }) => {
            lemma_for_each_window_repeats(
                client.windows,
                surface,
                enter_effects(surface, serial, client.cursor_icon_name),
                effect,
            );
        },
        _ => {},
    }
}

/// While no window has the pointer, a pointer that does not enter one delivers nothing,
/// and changes nothing but the settings for scrolling.
pub proof fn lemma_pointer_is_idle_without_focus(client: ClientView, event: PointerEvent)
    requires
        client.mouse_focused_window is None,
        !(event is Enter),
    ensures
        client.pointer_step(event).1 == Seq::<Effect>::empty(),
        client.pointer_step(event).0 == (ClientView {
            scroll_direction: client.pointer_step(event).0.scroll_direction,
            axis_source: client.pointer_step(event).0.axis_source,
            ..client
        }),
{
}

/// While no window has the keyboard, neither keys nor modifiers deliver or change anything.
pub proof fn lemma_keys_are_idle_without_focus(client: ClientView, event: KeyboardEvent)
    requires
        client.keyboard_focused_window is None,
        event is Modifiers || event is ModifiersResolved || event is Key || event is KeyResolved,
    ensures
        client.keyboard_step(event) == (client, Seq::<Effect>::empty()),
{
}

/// Leaving takes the focus away: the window that had the pointer is told that the pointer
/// is gone and that it lost the focus, and nothing is delivered until the next entry.
pub proof fn lemma_leaving_ends_the_focus(
    client: ClientView,
    surface: ObjectId,
    event: PointerEvent,
)
    requires
        !(event is Enter),
    ensures
        ({
            let left = client.pointer_step(PointerEvent::Leave { surface });
            &&& left.0.mouse_focused_window is None
            &&& client.mouse_focused_window matches Some(window) ==> left.1 == seq![
                Effect::HandleInput { window, input: ClientView::gone_input() },
                Effect::SetFocused { surface: window, focused: false },
            ]
            &&& left.0.pointer_step(event).1 == Seq::<Effect>::empty()
        }),
{
    let left = client.pointer_step(PointerEvent::Leave { surface }).0;
    lemma_pointer_is_idle_without_focus(left, event);
}

/// A window that loses the keyboard stops every repetition.
pub proof fn lemma_losing_the_keyboard_stops_repetition(
    client: ClientView,
    surface: ObjectId,
    id: u64,
    rate: u32,
)
    ensures
        ({
            let left = client.keyboard_step(KeyboardEvent::Leave { surface }).0;
            left.repeat.spec_timeout(id, rate, left.keyboard_focused_window) is Drop
        }),
{
}

/// A modifier key by itself delivers nothing and starts or stops no repetition.
pub proof fn lemma_modifier_keys_are_silent(
    client: ClientView,
    keycode: u32,
    key_state: KeyState,
    keysym: u32,
)
    requires
        spec_is_modifier_key(keysym),
    ensures
        client.keyboard_step(KeyboardEvent::KeyResolved { keycode, key_state, keysym }) == (
            client,
            Seq::<Effect>::empty(),
        ),
{
}

/// What a key press delivers is what its timer repeats, and the timer is the one that the
/// window with the keyboard repeats by.
pub proof fn lemma_press_is_what_repeats(
    client: ClientView,
    window: ObjectId,
    keycode: u32,
    keysym: u32,
)
    requires
        client.keyboard_focused_window == Some(window),
        !spec_is_modifier_key(keysym),
        client.repeat.current_id < u64::MAX,
    ensures
        ({
            let pressed = client.keyboard_step(
                KeyboardEvent::KeyResolved { keycode, key_state: KeyState::Pressed, keysym },
            );
            let input = client.key_down(keycode);
            let timer = pressed.0.repeat.spec_timer();
            &&& pressed.1 == seq![
                Effect::ArmRepeat { timer, input },
                Effect::HandleInput { window, input },
            ]
            &&& timer.id == client.repeat.current_id + 1
            &&& pressed.0.repeat.repeats(timer.id, pressed.0.keyboard_focused_window)
        }),
{
}

/// A key of the window that has the keyboard is looked up in the keymap, and what comes of
/// it is delivered to the window: the press or the release of the key's XKB keycode, under
/// the modifiers of the moment.
pub proof fn lemma_key_reaches_the_focus(
    client: ClientView,
    window: ObjectId,
    key: u32,
    key_state: KeyState,
    keysym: u32,
)
    requires
        client.keyboard_focused_window == Some(window),
        key + MIN_KEYCODE <= u32::MAX,
        client.repeat.current_id < u64::MAX,
        !spec_is_modifier_key(keysym),
        !(key_state is Other),
    ensures
        ({
            let keycode = (key + MIN_KEYCODE) as u32;
            let keystroke = Keystroke { keycode, modifiers: client.modifiers };
            let input = if key_state is Pressed {
                PlatformInput::KeyDown(KeyDownEvent { keystroke, is_held: false })
            } else {
                PlatformInput::KeyUp(KeyUpEvent { keystroke })
            };
            let resolved = client.keyboard_step(
                KeyboardEvent::KeyResolved { keycode, key_state, keysym },
            );
            &&& client.keyboard_step(KeyboardEvent::Key { key, state: Some(key_state) }) == (
                client,
                seq![Effect::LookUpKeysym { keycode, key_state }],
            )
            &&& resolved.1.last() == Effect::HandleInput { window, input }
        }),
{
}

/// A window that has the keyboard is told the modifiers that the keymap reports, and the
/// input that follows carries them.
pub proof fn lemma_modifiers_reach_the_focus(
    client: ClientView,
    window: ObjectId,
    active: ActiveModifiers,
)
    requires
        client.keyboard_focused_window == Some(window),
    ensures
        ({
            let told = client.keyboard_step(KeyboardEvent::ModifiersResolved { active });
            let modifiers = Modifiers {
                shift: active.shift,
                control: active.control,
                alt: active.alt,
                platform: active.logo,
                function: client.modifiers.function,
            };
            &&& told.1 == seq![
                Effect::HandleInput {
                    window,
                    input: PlatformInput::ModifiersChanged(ModifiersChangedEvent { modifiers }),
                },
            ]
            &&& told.0 == (ClientView { modifiers, ..client })
        }),
{
}

/// While a button is held, the pointer's motion is delivered with that button.
pub proof fn lemma_drag_carries_the_button(
    client: ClientView,
    window: ObjectId,
    button: u32,
    context: PressContext,
    surface_x: i32,
    surface_y: i32,
)
    requires
        client.mouse_focused_window == Some(window),
        spec_mouse_button(button) is Some,
    ensures
        ({
            let pressed = client.pointer_step(
                PointerEvent::Button { button, state: Some(ButtonState::Pressed), context },
            ).0;
            let moved = pressed.pointer_step(PointerEvent::Motion { surface_x, surface_y }).1;
            moved[0] == Effect::HandleInput {
                window,
                input: PlatformInput::MouseMove(
                    MouseMoveEvent {
                        position: Point { x: surface_x, y: surface_y },
                        pressed_button: spec_mouse_button(button),
                        modifiers: client.modifiers,
                    },
                ),
            }
        }),
{
}

/// Pressing a button and letting it go delivers a press and a release of the same button,
/// at the same place, with the same count of clicks, and leaves no button held.
pub proof fn lemma_press_and_release_agree(
    client: ClientView,
    window: ObjectId,
    button: u32,
    pressing: PressContext,
    releasing: PressContext,
)
    requires
        client.mouse_focused_window == Some(window),
        spec_mouse_button(button) is Some,
        client.click.next_count(pressing) <= usize::MAX,
    ensures
        ({
            let pressed = client.pointer_step(
                PointerEvent::Button {
                    button,
                    state: Some(ButtonState::Pressed),
                    context: pressing,
                },
            );
            let released = pressed.0.pointer_step(
                PointerEvent::Button {
                    button,
                    state: Some(ButtonState::Released),
                    context: releasing,
                },
            );
            &&& pressed.0.button_pressed == spec_mouse_button(button)
            &&& pressed.1 == seq![
                Effect::HandleInput {
                    window,
                    input: PlatformInput::MouseDown(
                        MouseDownEvent {
                            button: spec_mouse_button(button)->0,
                            position: client.mouse_location,
                            modifiers: client.modifiers,
                            click_count: client.click.next_count(pressing) as usize,
                            first_mouse: false,
                        },
                    ),
                },
            ]
            &&& released.1 == seq![
                Effect::HandleInput {
                    window,
                    input: PlatformInput::MouseUp(
                        MouseUpEvent {
                            button: spec_mouse_button(button)->0,
                            position: client.mouse_location,
                            modifiers: client.modifiers,
                            click_count: client.click.next_count(pressing) as usize,
                        },
                    ),
                },
            ]
            &&& released.0 == (ClientView {
                click: pressed.0.click,
                button_pressed: None,
                ..client
            })
        }),
{
}

/// A notch of a wheel is delivered once: the pointer that reports it in 120ths has its
/// `axis` events left aside as long as the wheel is the source.
pub proof fn lemma_wheel_scrolls_once(
    client: ClientView,
    window: ObjectId,
    axis: Axis,
    value: i32,
    value120: i32,
    version: u32,
)
    requires
        client.mouse_focused_window == Some(window),
        client.axis_source is Wheel,
        version >= spec_axis_value120_since(),
    ensures
        client.pointer_step(PointerEvent::Axis { axis: Some(axis), value, version })
            == (client, Seq::<Effect>::empty()),
        client.pointer_step(PointerEvent::AxisValue120 { axis: Some(axis), value120 }) == (
            client,
            seq![
                Effect::HandleInput {
                    window,
                    input: client.scroll_input(axis, value120 * FIXED_PER_PIXEL),
                },
            ],
        ),
{
}

/// Where the wheel is not the source, or the pointer too old to report 120ths, an `axis`
/// event is delivered.
pub proof fn lemma_other_scrolls_are_delivered(
    client: ClientView,
    window: ObjectId,
    axis: Axis,
    value: i32,
    version: u32,
)
    requires
        client.mouse_focused_window == Some(window),
        !(client.axis_source is Wheel) || version < spec_axis_value120_since(),
    ensures
        client.pointer_step(PointerEvent::Axis { axis: Some(axis), value, version }) == (
            client,
            seq![Effect::HandleInput { window, input: client.scroll_input(axis, value as int) }],
        ),
{
}

/// Scrolling along an axis leaves the other axis alone, and turning the direction round
/// turns the scroll round.
pub proof fn lemma_scroll_direction_mirrors(client: ClientView, axis: Axis, value: i32)
    requires
        !(axis is Other),
    ensures
        ({
            let against = ClientView { scroll_direction: ScrollDirection::Against, ..client };
            let along = ClientView { scroll_direction: ScrollDirection::Along, ..client };
            &&& along.scroll_input(axis, value as int) == PlatformInput::ScrollWheel(
                ScrollWheelEvent {
                    position: client.mouse_location,
                    delta: if axis is VerticalScroll {
                        ScrollDelta { x: 0, y: value as i64 }
                    } else {
                        ScrollDelta { x: value as i64, y: 0 }
                    },
                    modifiers: client.modifiers,
                    touch_phase: TouchPhase::Moved,
                },
            )
            &&& against.scroll_input(axis, value as int) == along.scroll_input(axis, -value)
        }),
{
    let v = value as int;
    let along = ScrollDirection::Along.factor();
    let against = ScrollDirection::Against.factor();
    assert(v * along == v && (-v) * along == -v && v * against == -v) by (nonlinear_arith)
        requires
            along == 1,
            against == -1,
    ;
}

/// Where the compositor sends fractional scales, or cannot be told a buffer scale, no
/// surface event changes or asks anything.
pub proof fn lemma_surface_events_need_buffer_scales(
    client: ClientView,
    surface: ObjectId,
    version: u32,
    event: SurfaceEvent,
)
    requires
        client.has_fractional_scale_manager || client.compositor_version
            < spec_set_buffer_scale_since(),
    ensures
        client.surface_step(surface, version, event) == (client, Seq::<Effect>::empty()),
{
}

/// A surface that can be told its preferred scale takes no notice of the outputs that it
/// enters or leaves.
pub proof fn lemma_preferred_scale_wins(
    client: ClientView,
    surface: ObjectId,
    version: u32,
    output: ObjectId,
)
    requires
        version >= spec_preferred_buffer_scale_since(),
    ensures
        client.surface_step(surface, version, SurfaceEvent::Enter { output }) == (
            client,
            Seq::<Effect>::empty(),
        ),
        client.surface_step(surface, version, SurfaceEvent::Leave { output }) == (
            client,
            Seq::<Effect>::empty(),
        ),
{
}

/// A surface that enters a bound output is drawn at least at that output's scale; leaving
/// it again brings back the outputs, and with them the scale, from before.
pub proof fn lemma_leaving_undoes_entering(
    client: ClientView,
    surface: ObjectId,
    version: u32,
    index: int,
    output: int,
)
    requires
        client.uses_buffer_scale(),
        version < spec_preferred_buffer_scale_since(),
        first_window(client.windows, Role::Surface, surface) == Some(index),
        0 <= output < client.outputs.len(),
        !client.windows[index].outputs.contains(client.outputs[output].id),
    ensures
        ({
            let id = client.outputs[output].id;
            let entered = client.surface_step(surface, version, SurfaceEvent::Enter { output: id });
            let left = entered.0.surface_step(surface, version, SurfaceEvent::Leave { output: id });
            &&& entered.1.len() == 2
            &&& entered.1[1] matches Effect::SetBufferScale { surface: s, factor } && s == surface
                && factor >= 1 && factor >= client.outputs[output].state.scale
            &&& left.0 == client
            &&& left.1.len() == 2
            &&& left.1[1] == Effect::SetBufferScale {
                surface,
                factor: entered_scale(client.outputs, client.windows[index].outputs),
            }
        }),
{
    let id = client.outputs[output].id;
    ids(client.windows, Role::Surface).index_of_first_ensures(surface);
    assert(output_ids(client.outputs)[output] == id);
    assert(client.has_output(id));
    let entered = client.outputs_after_enter(index, id);
    assert(entered == client.windows[index].outputs.insert(id));
    lemma_entered_scale_is_largest(client.outputs, entered);
    let next = client.surface_step(surface, version, SurfaceEvent::Enter { output: id }).0;
    assert(next == client.with_window_outputs(index, entered));
    assert(ids(next.windows, Role::Surface) =~= ids(client.windows, Role::Surface));
    assert(next.windows[index].outputs == entered);
    assert(entered.remove(id) =~= client.windows[index].outputs);
    let back = next.with_window_outputs(index, entered.remove(id));
    assert(back.windows =~= client.windows);
}

/// Whether no two windows share an object.
pub open spec fn distinct(windows: Seq<WindowView>) -> bool {
    &&& ids(windows, Role::XdgSurface).no_duplicates()
    &&& ids(windows, Role::Surface).no_duplicates()
    &&& ids(windows, Role::Toplevel).no_duplicates()
}

/// A window opened on new objects shares none with another.
pub proof fn lemma_open_keeps_distinct(
    client: ClientView,
    xdg_surface: ObjectId,
    surface: ObjectId,
    toplevel: ObjectId,
)
    requires
        distinct(client.windows),
        !ids(client.windows, Role::XdgSurface).contains(xdg_surface),
        !ids(client.windows, Role::Surface).contains(surface),
        !ids(client.windows, Role::Toplevel).contains(toplevel),
    ensures
        distinct(client.with_window(xdg_surface, surface, toplevel).windows),
{
    let next = client.with_window(xdg_surface, surface, toplevel).windows;
    assert(ids(next, Role::XdgSurface) =~= ids(client.windows, Role::XdgSurface).push(
        xdg_surface,
    ));
    assert(ids(next, Role::Surface) =~= ids(client.windows, Role::Surface).push(surface));
    assert(ids(next, Role::Toplevel) =~= ids(client.windows, Role::Toplevel).push(toplevel));
}

/// Where no two windows share an object, an object leads to the one window that it belongs
/// to.
pub proof fn lemma_object_leads_to_its_window(
    windows: Seq<WindowView>,
    role: Role,
    index: int,
)
    requires
        distinct(windows),
        0 <= index < windows.len(),
    ensures
        first_window(windows, role, windows[index].id(role)) == Some(index),
{
    let names = ids(windows, role);
    assert(names[index] == windows[index].id(role));
    names.index_of_first_ensures(windows[index].id(role));
}

/// Where no two windows share an object, what is done for each window of a surface is done
/// once, or not at all where no window has the surface.
pub proof fn lemma_each_window_is_served_once(
    windows: Seq<WindowView>,
    surface: ObjectId,
    effects: Seq<Effect>,
)
    requires
        ids(windows, Role::Surface).no_duplicates(),
    ensures
        ids(windows, Role::Surface).contains(surface) ==> for_each_window(
            windows,
            surface,
            effects,
        ) == effects,
        !ids(windows, Role::Surface).contains(surface) ==> for_each_window(
            windows,
            surface,
            effects,
        ) == Seq::<Effect>::empty(),
    decreases windows.len(),
{
    if windows.len() > 0 {
        let names = ids(windows, Role::Surface);
        let front = windows.drop_last();
        let front_names = ids(front, Role::Surface);
        assert(front_names =~= names.drop_last());
        assert(front_names.no_duplicates());
        lemma_each_window_is_served_once(front, surface, effects);
        assert(names[names.len() - 1] == windows.last().surface);
        if windows.last().surface == surface {
            assert(!front_names.contains(surface)) by {
                if front_names.contains(surface) {
                    let i = front_names.index_of(surface);
                    assert(names[i] == names[names.len() - 1]);
                }
            }
            assert(Seq::<Effect>::empty() + effects =~= effects);
        } else if names.contains(surface) {
            let i = names.index_of(surface);
            assert(front_names[i] == surface);
        } else {
            if front_names.contains(surface) {
                let i = front_names.index_of(surface);
                assert(names[i] == surface);
            }
        }
    }
}

proof fn lemma_filter_keeps_distinct(
    windows: Seq<WindowView>,
    keep: spec_fn(WindowView) -> bool,
    role: Role,
)
    requires
        ids(windows, role).no_duplicates(),
    ensures
        ids(windows.filter(keep), role).no_duplicates(),
        forall|id: ObjectId|
            ids(windows.filter(keep), role).contains(id) ==> #[trigger] ids(windows, role).contains(
                id,
            ),
    decreases windows.len(),
{
    reveal(Seq::filter);
    if windows.len() > 0 {
        let front = windows.drop_last();
        let names = ids(windows, role);
        assert(ids(front, role) =~= names.drop_last());
        lemma_filter_keeps_distinct(front, keep, role);
        let kept = ids(front.filter(keep), role);
        let last = windows.last().id(role);
        assert(names[names.len() - 1] == last);
        assert(!ids(front, role).contains(last)) by {
            if ids(front, role).contains(last) {
                let i = ids(front, role).index_of(last);
                assert(names[i] == names[names.len() - 1]);
            }
        }
        if keep(windows.last()) {
            assert(ids(windows.filter(keep), role) =~= kept.push(last));
            assert(!kept.contains(last));
        }
        assert forall|id: ObjectId| ids(windows.filter(keep), role).contains(
            id,
        ) implies #[trigger] names.contains(id) by {
            if id != last || !keep(windows.last()) {
                let all = ids(windows.filter(keep), role);
                let i = all.index_of(id);
                assert(all[i] == id);
                if keep(windows.last()) {
                    assert(all[i] == kept.push(last)[i]);
                }
                assert(kept.contains(id)) by {
                    assert(kept[i] == id);
                }
                assert(ids(front, role).contains(id));
                let j = ids(front, role).index_of(id);
                assert(names[j] == id);
            }
        }
    }
}

/// Closing leaves no two windows that share an object where there were none.
pub proof fn lemma_close_keeps_distinct(client: ClientView, toplevel: ObjectId)
    requires
        distinct(client.windows),
    ensures
        distinct(client.toplevel_step(toplevel, ToplevelEvent::Close).0.windows),
{
    let stays = |window: WindowView| window.toplevel != toplevel;
    lemma_filter_keeps_distinct(client.windows, stays, Role::XdgSurface);
    lemma_filter_keeps_distinct(client.windows, stays, Role::Surface);
    lemma_filter_keeps_distinct(client.windows, stays, Role::Toplevel);
}

proof fn lemma_filter_of_kept(windows: Seq<WindowView>, keep: spec_fn(WindowView) -> bool)
    requires
        forall|i: int| 0 <= i < windows.len() ==> keep(#[trigger] windows[i]),
    ensures
        windows.filter(keep) == windows,
    decreases windows.len(),
{
    reveal(Seq::filter);
    if windows.len() > 0 {
        let front = windows.drop_last();
        assert forall|i: int| 0 <= i < front.len() implies keep(#[trigger] front[i]) by {
            assert(front[i] == windows[i]);
        }
        lemma_filter_of_kept(front, keep);
        assert(keep(windows[windows.len() - 1]));
        assert(front.push(windows.last()) =~= windows);
    }
}

/// No event but the closing of a toplevel opens or closes a window, or gives it other
/// objects.
pub proof fn lemma_events_keep_windows(client: ClientView, event: Event, role: Role)
    requires
        !(event matches Event::Toplevel { event: ToplevelEvent::Close, .. }),
    ensures
        ids(client.step(event).0.windows, role) == ids(client.windows, role),
{
    let next = client.step(event).0;
    match event {
        Event::Surface { surface, version, event } => {
            ids(client.windows, Role::Surface).index_of_first_ensures(surface);
            assert(ids(next.windows, role) =~= ids(client.windows, role));
        },
        _ => {},
    }
}

/// No event makes two windows share an object.
pub proof fn lemma_events_keep_distinct(client: ClientView, event: Event)
    requires
        distinct(client.windows),
    ensures
        distinct(client.step(event).0.windows),
{
    match event {
        Event::Toplevel { toplevel, event: ToplevelEvent::Close } => {
            lemma_close_keeps_distinct(client, toplevel);
        },
        _ => {
            lemma_events_keep_windows(client, event, Role::XdgSurface);
            lemma_events_keep_windows(client, event, Role::Surface);
            lemma_events_keep_windows(client, event, Role::Toplevel);
        },
    }
}

/// Closing a toplevel leaves no window of it: it is configured no more, and closing it once
/// more changes and asks nothing.
pub proof fn lemma_closed_toplevel_is_gone(
    client: ClientView,
    toplevel: ObjectId,
    width: i32,
    height: i32,
    states: Seq<u8>,
)
    ensures
        ({
            let closed = client.toplevel_step(toplevel, ToplevelEvent::Close).0;
            &&& !ids(closed.windows, Role::Toplevel).contains(toplevel)
            &&& closed.configure_effects(toplevel, width, height, states)
                == Seq::<Effect>::empty()
            &&& closed.toplevel_step(toplevel, ToplevelEvent::Close) == (
                closed,
                Seq::<Effect>::empty(),
            )
        }),
{
    let stays = |window: WindowView| window.toplevel != toplevel;
    let goes = |window: WindowView| window.toplevel == toplevel;
    let closed = client.toplevel_step(toplevel, ToplevelEvent::Close).0;
    let names = ids(closed.windows, Role::Toplevel);
    if names.contains(toplevel) {
        let i = names.index_of(toplevel);
        assert(closed.windows[i].toplevel == toplevel);
        client.windows.lemma_filter_pred(stays, i);
    }
    names.index_of_first_ensures(toplevel);
    assert forall|i: int| 0 <= i < closed.windows.len() implies stays(
        #[trigger] closed.windows[i],
    ) by {
        client.windows.lemma_filter_pred(stays, i);
    }
    lemma_filter_of_kept(closed.windows, stays);
    assert(closed.windows.all(|window: WindowView| !goes(window)));
    closed.windows.lemma_all_neg_filter_empty(goes);
    assert(destroy_effects(closed.windows, toplevel) =~= Seq::<Effect>::empty());
}

/// A window that was just opened on new objects is the one that its objects lead to.
pub proof fn lemma_opened_window_is_served(
    client: ClientView,
    xdg_surface: ObjectId,
    surface: ObjectId,
    toplevel: ObjectId,
    serial: u32,
)
    requires
        distinct(client.windows),
        !ids(client.windows, Role::XdgSurface).contains(xdg_surface),
        !ids(client.windows, Role::Surface).contains(surface),
        !ids(client.windows, Role::Toplevel).contains(toplevel),
    ensures
        ({
            let opened = client.with_window(xdg_surface, surface, toplevel);
            &&& opened.step(Event::FrameDone { surface }).1 == frame_effects(surface)
            &&& opened.step(Event::XdgSurfaceConfigure { xdg_surface, serial }).1 == seq![
                Effect::AckConfigure { xdg_surface, serial },
                Effect::Update { surface },
                Effect::Commit { surface },
            ]
        }),
{
    let opened = client.with_window(xdg_surface, surface, toplevel);
    lemma_open_keeps_distinct(client, xdg_surface, surface, toplevel);
    let last = opened.windows.len() - 1;
    assert(ids(opened.windows, Role::Surface)[last] == surface);
    lemma_each_window_is_served_once(opened.windows, surface, frame_effects(surface));
    lemma_object_leads_to_its_window(opened.windows, Role::XdgSurface, last);
    assert(opened.xdg_surface_effects(xdg_surface, serial) =~= seq![
        Effect::AckConfigure { xdg_surface, serial },
        Effect::Update { surface },
        Effect::Commit { surface },
    ]);
}

} // verus!
