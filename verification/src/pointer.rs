//! Pointer focus, motion, clicks and scrolling.

use crate::click::PressContext;
use crate::client::ClientView;
use crate::client::ScrollDirection;
use crate::client::WaylandClient;
use crate::effects::only;
use crate::effects::Effect;
use crate::events::Axis;
use crate::events::AxisRelativeDirection;
use crate::events::AxisSource;
use crate::events::ButtonState;
use crate::events::ObjectId;
use crate::events::PointerEvent;
use crate::geometry::Point;
use crate::geometry::FIXED_PER_PIXEL;
use crate::input::linux_button_to_gpui;
use crate::input::spec_mouse_button;
use crate::input::Modifiers;
use crate::input::MouseButton;
use crate::input::MouseDownEvent;
use crate::input::MouseMoveEvent;
use crate::input::MouseUpEvent;
use crate::input::PlatformInput;
use crate::input::ScrollDelta;
use crate::input::ScrollWheelEvent;
use crate::input::TouchPhase;
use crate::protocol::axis_value120_since;
use crate::protocol::spec_axis_value120_since;
use crate::windows::for_each_window;
use crate::windows::ids;
use crate::windows::Role;
use vstd::prelude::*;

verus! {

impl ScrollDirection {
    /// The factor that the movement of an axis is multiplied by.
    pub open spec fn factor(self) -> int {
        match self {
            ScrollDirection::Against => -1,
            ScrollDirection::Along => 1,
        }
    }
}

/// The direction in which the content scrolls: against the axis, unless the axis is
/// reported as inverted.
pub open spec fn spec_scroll_direction(direction: AxisRelativeDirection) -> ScrollDirection {
    if direction is Inverted {
        ScrollDirection::Along
    } else {
        ScrollDirection::Against
    }
}

/// What a pointer that enters a window asks.
pub open spec fn enter_effects(surface: ObjectId, serial: u32, icon: &'static str) -> Seq<Effect> {
    seq![
        Effect::SetFocused { surface, focused: true },
        Effect::SetCursorSerial { serial },
        Effect::SetCursorIcon { icon },
    ]
}

/// The scroll by `distance` along `axis`.
pub open spec fn scroll_delta(axis: Axis, distance: int) -> ScrollDelta {
    if axis is HorizontalScroll {
        ScrollDelta { x: distance as i64, y: 0 }
    } else {
        ScrollDelta { x: 0, y: distance as i64 }
    }
}

impl ClientView {
    /// Whether an `axis` event of a pointer at `version` is left aside, because the same
    /// scroll is reported by an `axis_value120` event.
    pub open spec fn is_discrete_scroll(self, version: u32) -> bool {
        version >= spec_axis_value120_since() && self.axis_source is Wheel
    }

    /// Whether the client can work with a pointer event: it scrolls along two axes only,
    /// and the count of clicks is bounded.
    pub open spec fn accepts_pointer(self, event: PointerEvent) -> bool {
        self.mouse_focused_window is Some ==> match event {
            PointerEvent::Button { button, state: Some(ButtonState::Pressed), context } =>
                spec_mouse_button(button) is Some ==> self.click.next_count(context) <= usize::MAX,
            PointerEvent::AxisValue120 { axis, .. } => axis != Some(Axis::Other),
            PointerEvent::Axis { axis, version, .. } => axis == Some(Axis::Other)
                ==> self.is_discrete_scroll(version),
            _ => true,
        }
    }

    /// The input of a scroll by `distance`, counted in steps of 1/256 of a pixel along the
    /// axis.
    pub open spec fn scroll_input(self, axis: Axis, distance: int) -> PlatformInput {
        PlatformInput::ScrollWheel(
            ScrollWheelEvent {
                position: self.mouse_location,
                delta: scroll_delta(axis, distance * self.scroll_direction.factor()),
                modifiers: self.modifiers,
                touch_phase: TouchPhase::Moved,
            },
        )
    }

    /// The delivery of a scroll to the window that has the pointer.
    pub open spec fn scroll_effects(self, axis: Option<Axis>, distance: int) -> Seq<Effect> {
        match (axis, self.mouse_focused_window) {
            (Some(axis), Some(window)) => seq![
                Effect::HandleInput { window, input: self.scroll_input(axis, distance) },
            ],
            _ => seq![],
        }
    }

    /// The input of a pointer that moved.
    pub open spec fn move_input(self) -> PlatformInput {
        PlatformInput::MouseMove(
            MouseMoveEvent {
                position: self.mouse_location,
                pressed_button: self.button_pressed,
                modifiers: self.modifiers,
            },
        )
    }

    /// The input of `button` going down, once its press is counted.
    pub open spec fn down_input(self, button: MouseButton) -> PlatformInput {
        PlatformInput::MouseDown(
            MouseDownEvent {
                button,
                position: self.mouse_location,
                modifiers: self.modifiers,
                click_count: self.click.current_count,
                first_mouse: false,
            },
        )
    }

    /// The input of `button` going up.
    pub open spec fn up_input(self, button: MouseButton) -> PlatformInput {
        PlatformInput::MouseUp(
            MouseUpEvent {
                button,
                position: self.mouse_location,
                modifiers: self.modifiers,
                click_count: self.click.current_count,
            },
        )
    }

    /// The input of a pointer that is gone.
    pub open spec fn gone_input() -> PlatformInput {
        PlatformInput::MouseMove(
            MouseMoveEvent {
                position: Point { x: 0, y: 0 },
                pressed_button: None,
                modifiers: Modifiers::spec_none(),
            },
        )
    }

    /// The client after `button` was pressed.
    pub open spec fn after_button_press(
        self,
        button: MouseButton,
        context: PressContext,
    ) -> ClientView {
        ClientView {
            click: self.click.after_press(context, self.mouse_location),
            button_pressed: Some(button),
            ..self
        }
    }

    /// What a change of `button` does, and what it asks, while `window` has the pointer.
    pub open spec fn button_step(
        self,
        window: ObjectId,
        button: MouseButton,
        state: ButtonState,
        context: PressContext,
    ) -> (ClientView, Seq<Effect>) {
        match state {
            ButtonState::Pressed => {
                let next = self.after_button_press(button, context);
                (next, seq![Effect::HandleInput { window, input: next.down_input(button) }])
            },
            ButtonState::Released => (
                ClientView { button_pressed: None, ..self },
                seq![Effect::HandleInput { window, input: self.up_input(button) }],
            ),
            ButtonState::Other => (self, seq![]),
        }
    }

    /// What a pointer event does, and what it asks.
    pub open spec fn pointer_step(self, event: PointerEvent) -> (ClientView, Seq<Effect>) {
        match event {
            PointerEvent::Enter { serial, surface, surface_x, surface_y } => (
                ClientView {
                    mouse_focused_window: if self.has_surface(surface) {
                        Some(surface)
                    } else {
                        self.mouse_focused_window
                    },
                    mouse_location: Point { x: surface_x, y: surface_y },
                    ..self
                },
                for_each_window(
                    self.windows,
                    surface,
                    enter_effects(surface, serial, self.cursor_icon_name),
                ),
            ),
            PointerEvent::Motion { surface_x, surface_y } => match self.mouse_focused_window {
                Some(window) => {
                    let next = ClientView {
                        mouse_location: Point { x: surface_x, y: surface_y },
                        ..self
                    };
                    (
                        next,
                        seq![
                            Effect::HandleInput { window, input: next.move_input() },
                            Effect::SetCursorIcon { icon: self.cursor_icon_name },
                        ],
                    )
                },
                None => (self, seq![]),
            },
            PointerEvent::Button { button, state, context } => match (
                spec_mouse_button(button),
                state,
                self.mouse_focused_window,
            ) {
                (Some(button), Some(state), Some(window)) => self.button_step(
                    window,
                    button,
                    state,
                    context,
                ),
                _ => (self, seq![]),
            },
            PointerEvent::AxisRelativeDirection { direction } => match direction {
                Some(direction) => (
                    ClientView { scroll_direction: spec_scroll_direction(direction), ..self },
                    seq![],
                ),
                None => (self, seq![]),
            },
            PointerEvent::AxisSource { axis_source } => match axis_source {
                Some(axis_source) => (ClientView { axis_source, ..self }, seq![]),
                None => (self, seq![]),
            },
            PointerEvent::AxisValue120 { axis, value120 } => (
                self,
                self.scroll_effects(axis, value120 * FIXED_PER_PIXEL),
            ),
            PointerEvent::Axis { axis, value, version } => (
                self,
                if self.is_discrete_scroll(version) {
                    seq![]
                } else {
                    self.scroll_effects(axis, value as int)
                },
            ),
            PointerEvent::Leave { .. } => (
                ClientView { mouse_focused_window: None, ..self },
                match self.mouse_focused_window {
                    Some(window) => seq![
                        Effect::HandleInput { window, input: Self::gone_input() },
                        Effect::SetFocused { surface: window, focused: false },
                    ],
                    None => seq![],
                },
            ),
            PointerEvent::Other => (self, seq![]),
        }
    }
}

impl WaylandClient {
    pub(crate) fn can_handle_pointer(&self, event: PointerEvent) -> (accepted: bool)
        ensures
            accepted == self@.accepts_pointer(event),
    {
        if self.mouse_focused_window.is_none() {
            return true;
        }
        match event {
            PointerEvent::Button { button, state: Some(ButtonState::Pressed), context } =>
            linux_button_to_gpui(button).is_none() || self.click.can_press(context),
            PointerEvent::AxisValue120 { axis: Some(Axis::Other), .. } => false,
            PointerEvent::Axis { axis: Some(Axis::Other), version, .. } => version
                >= axis_value120_since() && self.axis_source == AxisSource::Wheel,
            _ => true,
        }
    }

    fn pointer_entered(
        &mut self,
        serial: u32,
        surface: ObjectId,
        surface_x: i32,
        surface_y: i32,
    ) -> (effects: Vec<Effect>)
        ensures
            final(self)@ == old(self)@.pointer_step(
                PointerEvent::Enter { serial, surface, surface_x, surface_y },
            ).0,
            effects@ == old(self)@.pointer_step(
                PointerEvent::Enter { serial, surface, surface_x, surface_y },
            ).1,
    {
        let mut effects: Vec<Effect> = Vec::new();
        let mut focus: Option<ObjectId> = self.mouse_focused_window;
        let icon: &'static str = self.cursor_icon_name;
        let ghost views = self@.windows;
        let ghost names = ids(views, Role::Surface);
        let mut i: usize = 0;
        while i < self.windows.len()
            invariant
                i <= self.windows.len(),
                *self == *old(self),
                views == self@.windows,
                names == ids(views, Role::Surface),
                icon == self.cursor_icon_name,
                focus == if exists|j: int| 0 <= j < i && names[j] == surface {
                    Some(surface)
                } else {
                    self.mouse_focused_window
                },
                effects@ == for_each_window(
                    views.take(i as int),
                    surface,
                    enter_effects(surface, serial, icon),
                ),
            decreases self.windows.len() - i,
        {
            let ghost before = effects@;
            assert(names[i as int] == self.windows[i as int].surface);
            if self.windows[i].surface == surface {
                effects.push(Effect::SetFocused { surface, focused: true });
                focus = Some(surface);
                effects.push(Effect::SetCursorSerial { serial });
                effects.push(Effect::SetCursorIcon { icon });
                assert(effects@ =~= before + enter_effects(surface, serial, icon));
            }
            assert(views.take(i + 1).drop_last() =~= views.take(i as int));
            assert(views.take(i + 1).last() == self.windows[i as int]@);
            i = i + 1;
        }
        assert(views.take(i as int) =~= views);
        self.mouse_focused_window = focus;
        self.mouse_location = Point { x: surface_x, y: surface_y };
        effects
    }

    fn pointer_moved(&mut self, surface_x: i32, surface_y: i32) -> (effects: Vec<Effect>)
        ensures
            final(self)@ == old(self)@.pointer_step(
                PointerEvent::Motion { surface_x, surface_y },
            ).0,
            effects@ == old(self)@.pointer_step(PointerEvent::Motion { surface_x, surface_y }).1,
    {
        if let Some(window) = self.mouse_focused_window {
            self.mouse_location = Point { x: surface_x, y: surface_y };
            let input = PlatformInput::MouseMove(
                MouseMoveEvent {
                    position: self.mouse_location,
                    pressed_button: self.button_pressed,
                    modifiers: self.modifiers,
                },
            );
            let mut effects: Vec<Effect> = only(Effect::HandleInput { window, input });
            effects.push(Effect::SetCursorIcon { icon: self.cursor_icon_name });
            effects
        } else {
            Vec::new()
        }
    }

    fn button_changed(
        &mut self,
        window: ObjectId,
        button: MouseButton,
        state: ButtonState,
        context: PressContext,
    ) -> (effects: Vec<Effect>)
        requires
            state is Pressed ==> old(self).click.next_count(context) <= usize::MAX,
        ensures
            final(self)@ == old(self)@.button_step(window, button, state, context).0,
            effects@ == old(self)@.button_step(window, button, state, context).1,
    {
        match state {
            ButtonState::Pressed => {
                self.click.press(context, self.mouse_location);
                self.button_pressed = Some(button);
                let input = PlatformInput::MouseDown(
                    MouseDownEvent {
                        button,
                        position: self.mouse_location,
                        modifiers: self.modifiers,
                        click_count: self.click.current_count,
                        first_mouse: false,
                    },
                );
                only(Effect::HandleInput { window, input })
            },
            ButtonState::Released => {
                self.button_pressed = None;
                let input = PlatformInput::MouseUp(
                    MouseUpEvent {
                        button,
                        position: self.mouse_location,
                        modifiers: self.modifiers,
                        click_count: self.click.current_count,
                    },
                );
                only(Effect::HandleInput { window, input })
            },
            ButtonState::Other => Vec::new(),
        }
    }

    /// Delivers a scroll by `distance`, counted in steps of 1/256 of a pixel.
    fn scroll(&self, axis: Option<Axis>, distance: i64) -> (effects: Vec<Effect>)
        requires
            self.mouse_focused_window is Some ==> axis != Some(Axis::Other),
            -0x80_0000_0000 <= distance <= 0x80_0000_0000,
        ensures
            effects@ == self@.scroll_effects(axis, distance as int),
    {
        match (axis, self.mouse_focused_window) {
            (Some(axis), Some(window)) => {
                let moved: i64 = match self.scroll_direction {
                    ScrollDirection::Against => -distance,
                    ScrollDirection::Along => distance,
                };
                let delta = match axis {
                    Axis::HorizontalScroll => ScrollDelta { x: moved, y: 0 },
                    _ => ScrollDelta { x: 0, y: moved },
                };
                let input = PlatformInput::ScrollWheel(
                    ScrollWheelEvent {
                        position: self.mouse_location,
                        delta,
                        modifiers: self.modifiers,
                        touch_phase: TouchPhase::Moved,
                    },
                );
                assert(moved == distance * self.scroll_direction.factor());
                only(Effect::HandleInput { window, input })
            },
            _ => Vec::new(),
        }
    }

    fn pointer_left(&mut self, surface: ObjectId) -> (effects: Vec<Effect>)
        ensures
            final(self)@ == old(self)@.pointer_step(PointerEvent::Leave { surface }).0,
            effects@ == old(self)@.pointer_step(PointerEvent::Leave { surface }).1,
    {
        let focus: Option<ObjectId> = self.mouse_focused_window;
        self.mouse_focused_window = None;
        if let Some(window) = focus {
            let input = PlatformInput::MouseMove(
                MouseMoveEvent {
                    position: Point::default(),
                    pressed_button: None,
                    modifiers: Modifiers::default(),
                },
            );
            let mut effects: Vec<Effect> = only(Effect::HandleInput { window, input });
            effects.push(Effect::SetFocused { surface: window, focused: false });
            effects
        } else {
            Vec::new()
        }
    }

    pub(crate) fn pointer_event(&mut self, event: PointerEvent) -> (effects: Vec<Effect>)
        requires
            old(self)@.accepts_pointer(event),
        ensures
            final(self)@ == old(self)@.pointer_step(event).0,
            effects@ == old(self)@.pointer_step(event).1,
    {
        match event {
            PointerEvent::Enter { serial, surface, surface_x, surface_y } => self.pointer_entered(
                serial,
                surface,
                surface_x,
                surface_y,
            ),
            PointerEvent::Motion { surface_x, surface_y } => self.pointer_moved(
                surface_x,
                surface_y,
            ),
            PointerEvent::Button { button, state, context } => match (
                linux_button_to_gpui(button),
                state,
                self.mouse_focused_window,
            ) {
                (Some(button), Some(state), Some(window)) => self.button_changed(
                    window,
                    button,
                    state,
                    context,
                ),
                _ => Vec::new(),
            },
            PointerEvent::AxisRelativeDirection { direction } => {
                match direction {
                    Some(AxisRelativeDirection::Inverted) => {
                        self.scroll_direction = ScrollDirection::Along;
                    },
                    Some(_) => {
                        self.scroll_direction = ScrollDirection::Against;
                    },
                    None => {},
                }
                Vec::new()
            },
            PointerEvent::AxisSource { axis_source } => {
                if let Some(axis_source) = axis_source {
                    self.axis_source = axis_source;
                }
                Vec::new()
            },
            PointerEvent::AxisValue120 { axis, value120 } => self.scroll(
                axis,
                (value120 as i64) * FIXED_PER_PIXEL,
            ),
            PointerEvent::Axis { axis, value, version } => if version >= axis_value120_since()
                && self.axis_source == AxisSource::Wheel {
                Vec::new()
            } else {
                self.scroll(axis, value as i64)
            },
            PointerEvent::Leave { surface } => self.pointer_left(surface),
            PointerEvent::Other => Vec::new(),
        }
    }
}

} // verus!
