//! The input that the client delivers to a window.

use crate::geometry::Point;
use vstd::prelude::*;

verus! {

#[derive(Clone, Copy, Debug, PartialEq, Eq, Structural)]
pub enum NavigationDirection {
    Back,
    Forward,
}

#[derive(Clone, Copy, Debug, PartialEq, Eq, Structural)]
pub enum MouseButton {
    Left,
    Right,
    Middle,
    Navigate(NavigationDirection),
}

// The button numbers of <linux/input-event-codes.h>.
pub const BTN_LEFT: u32 = 0x110;

pub const BTN_RIGHT: u32 = 0x111;

pub const BTN_MIDDLE: u32 = 0x112;

pub const BTN_SIDE: u32 = 0x113;

pub const BTN_EXTRA: u32 = 0x114;

pub const BTN_FORWARD: u32 = 0x115;

pub const BTN_BACK: u32 = 0x116;

/// The mouse button that an evdev button number stands for, if it stands for one.
pub open spec fn spec_mouse_button(button: u32) -> Option<MouseButton> {
    if button == BTN_LEFT {
        Some(MouseButton::Left)
    } else if button == BTN_RIGHT {
        Some(MouseButton::Right)
    } else if button == BTN_MIDDLE {
        Some(MouseButton::Middle)
    } else if button == BTN_BACK || button == BTN_SIDE {
        Some(MouseButton::Navigate(NavigationDirection::Back))
    } else if button == BTN_FORWARD || button == BTN_EXTRA {
        Some(MouseButton::Navigate(NavigationDirection::Forward))
    } else {
        None
    }
}

/// The mouse button for an evdev button number; `None` for a number that names no button
/// of a mouse known here.
pub fn linux_button_to_gpui(button: u32) -> (result: Option<MouseButton>)
    ensures
        result == spec_mouse_button(button),
        result is None <==> !(BTN_LEFT <= button <= BTN_BACK),
{
    if button == BTN_LEFT {
        Some(MouseButton::Left)
    } else if button == BTN_RIGHT {
        Some(MouseButton::Right)
    } else if button == BTN_MIDDLE {
        Some(MouseButton::Middle)
    } else if button == BTN_BACK || button == BTN_SIDE {
        Some(MouseButton::Navigate(NavigationDirection::Back))
    } else if button == BTN_FORWARD || button == BTN_EXTRA {
        Some(MouseButton::Navigate(NavigationDirection::Forward))
    } else {
        None
    }
}

/// The modifier keys that are active.
#[derive(Clone, Copy, Debug, PartialEq, Eq, Structural)]
pub struct Modifiers {
    pub shift: bool,
    pub control: bool,
    pub alt: bool,
    pub function: bool,
    pub platform: bool,
}

impl Modifiers {
    pub open spec fn spec_none() -> Modifiers {
        Modifiers { shift: false, control: false, alt: false, function: false, platform: false }
    }
}

impl Default for Modifiers {
    /// No modifier.
    fn default() -> (modifiers: Modifiers)
        ensures
            modifiers == Modifiers::spec_none(),
    {
        Modifiers { shift: false, control: false, alt: false, function: false, platform: false }
    }
}

/// What determines a keystroke besides the keymap: the key's XKB keycode, and the
/// modifiers that were active when it changed.
#[derive(Clone, Copy, Debug, PartialEq, Eq, Structural)]
pub struct Keystroke {
    pub keycode: u32,
    pub modifiers: Modifiers,
}

#[derive(Clone, Copy, Debug, PartialEq, Eq, Structural)]
pub struct KeyDownEvent {
    pub keystroke: Keystroke,
    pub is_held: bool,
}

#[derive(Clone, Copy, Debug, PartialEq, Eq, Structural)]
pub struct KeyUpEvent {
    pub keystroke: Keystroke,
}

#[derive(Clone, Copy, Debug, PartialEq, Eq, Structural)]
pub struct ModifiersChangedEvent {
    pub modifiers: Modifiers,
}

#[derive(Clone, Copy, Debug, PartialEq, Eq, Structural)]
pub struct MouseDownEvent {
    pub button: MouseButton,
    pub position: Point,
    pub modifiers: Modifiers,
    pub click_count: usize,
    pub first_mouse: bool,
}

#[derive(Clone, Copy, Debug, PartialEq, Eq, Structural)]
pub struct MouseUpEvent {
    pub button: MouseButton,
    pub position: Point,
    pub modifiers: Modifiers,
    pub click_count: usize,
}

#[derive(Clone, Copy, Debug, PartialEq, Eq, Structural)]
pub struct MouseMoveEvent {
    pub position: Point,
    pub pressed_button: Option<MouseButton>,
    pub modifiers: Modifiers,
}

/// How far a scroll moves the content, in steps of 1/256 of a pixel.
#[derive(Clone, Copy, Debug, PartialEq, Eq, Structural)]
pub struct ScrollDelta {
    pub x: i64,
    pub y: i64,
}

/// The phase of the touch that a scroll belongs to. A `wl_pointer` tells nothing of where
/// a touch starts or ends.
#[derive(Clone, Copy, Debug, PartialEq, Eq, Structural)]
pub enum TouchPhase {
    Moved,
}

#[derive(Clone, Copy, Debug, PartialEq, Eq, Structural)]
pub struct ScrollWheelEvent {
    pub position: Point,
    pub delta: ScrollDelta,
    pub modifiers: Modifiers,
    pub touch_phase: TouchPhase,
}

/// One piece of input for a window.
#[derive(Clone, Copy, Debug, PartialEq, Eq, Structural)]
pub enum PlatformInput {
    KeyDown(KeyDownEvent),
    KeyUp(KeyUpEvent),
    ModifiersChanged(ModifiersChangedEvent),
    MouseDown(MouseDownEvent),
    MouseUp(MouseUpEvent),
    MouseMove(MouseMoveEvent),
    ScrollWheel(ScrollWheelEvent),
}

/// The buttons of a mouse, by their numbers. The side button goes back and the extra button
/// forward, as those of that name do.
pub proof fn lemma_buttons_by_number(button: u32)
    ensures
        spec_mouse_button(button) == Some(MouseButton::Left) <==> button == 0x110,
        spec_mouse_button(button) == Some(MouseButton::Right) <==> button == 0x111,
        spec_mouse_button(button) == Some(MouseButton::Middle) <==> button == 0x112,
        spec_mouse_button(button) == Some(MouseButton::Navigate(NavigationDirection::Back))
            <==> button == 0x113 || button == 0x116,
        spec_mouse_button(button) == Some(MouseButton::Navigate(NavigationDirection::Forward))
            <==> button == 0x114 || button == 0x115,
        spec_mouse_button(button) is None <==> button < 0x110 || button > 0x116,
{
}

/// Where nothing is held, every modifier is off.
pub proof fn lemma_none_is_held()
    ensures
        !Modifiers::spec_none().shift,
        !Modifiers::spec_none().control,
        !Modifiers::spec_none().alt,
        !Modifiers::spec_none().function,
        !Modifiers::spec_none().platform,
{
}

} // verus!
