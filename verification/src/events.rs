//! The events that the client is told of.
//!
//! A protocol enumeration is an `Option`: `None` stands for a number that the protocol
//! crate knows no name for. Where the client looks at that number, the enumeration is a
//! `Result` with the number as its error. An `Other` variant stands for a value that the crate names
//! and the client has no use for.

use crate::click::PressContext;
use vstd::prelude::*;

verus! {

/// The name of a protocol object. The caller hands out the names, one per object.
pub type ObjectId = u64;

/// A global that the registry announces.
#[derive(Debug)]
pub struct Global {
    pub name: u32,
    pub interface: String,
    pub version: u32,
}

#[derive(Debug)]
pub enum RegistryEvent {
    Global(Global),
    GlobalRemove { name: u32 },
}

#[derive(Clone, Copy, Debug, PartialEq, Eq, Structural)]
pub enum SurfaceEvent {
    Enter { output: ObjectId },
    Leave { output: ObjectId },
    PreferredBufferScale { factor: i32 },
    Other,
}

#[derive(Clone, Copy, Debug, PartialEq, Eq, Structural)]
pub enum OutputEvent {
    Scale { factor: i32 },
    Other,
}

#[derive(Debug)]
pub enum ToplevelEvent {
    /// `states` holds the bytes of the array of states as they were sent.
    Configure { width: i32, height: i32, states: Vec<u8> },
    Close,
    Other,
}

#[derive(Clone, Copy, Debug, PartialEq, Eq, Structural)]
pub enum DecorationMode {
    ServerSide,
    ClientSide,
    Other,
}

#[derive(Clone, Copy, Debug, PartialEq, Eq, Structural)]
pub enum KeymapFormat {
    NoKeymap,
    XkbV1,
    Other,
}

#[derive(Clone, Copy, Debug, PartialEq, Eq, Structural)]
pub enum KeyState {
    Released,
    Pressed,
    Other,
}

/// The modifiers that the keymap reports as effective.
#[derive(Clone, Copy, Debug, PartialEq, Eq, Structural)]
pub struct ActiveModifiers {
    pub shift: bool,
    pub alt: bool,
    pub control: bool,
    pub logo: bool,
}

#[derive(Clone, Copy, Debug, PartialEq, Eq, Structural)]
pub enum KeyboardEvent {
    RepeatInfo { rate: i32, delay: i32 },
    Keymap { format: Option<KeymapFormat> },
    /// The keymap that `Effect::LoadKeymap` asked for is loaded.
    KeymapLoaded,
    Enter { surface: ObjectId },
    Leave { surface: ObjectId },
    Modifiers { mods_depressed: u32, mods_latched: u32, mods_locked: u32, group: u32 },
    /// The answer to `Effect::UpdateModifierMask`.
    ModifiersResolved { active: ActiveModifiers },
    Key { key: u32, state: Option<KeyState> },
    /// The answer to `Effect::LookUpKeysym`.
    KeyResolved { keycode: u32, key_state: KeyState, keysym: u32 },
    Other,
}

#[derive(Clone, Copy, Debug, PartialEq, Eq, Structural)]
pub enum ButtonState {
    Released,
    Pressed,
    Other,
}

#[derive(Clone, Copy, Debug, PartialEq, Eq, Structural)]
pub enum Axis {
    VerticalScroll,
    HorizontalScroll,
    Other,
}

#[derive(Clone, Copy, Debug, PartialEq, Eq, Structural)]
pub enum AxisSource {
    Wheel,
    Finger,
    Continuous,
    WheelTilt,
    Other,
}

#[derive(Clone, Copy, Debug, PartialEq, Eq, Structural)]
pub enum AxisRelativeDirection {
    Identical,
    Inverted,
    Other,
}

/// Positions and axis values count steps of 1/256 of a pixel.
#[derive(Clone, Copy, Debug, PartialEq, Eq, Structural)]
pub enum PointerEvent {
    Enter { serial: u32, surface: ObjectId, surface_x: i32, surface_y: i32 },
    Motion { surface_x: i32, surface_y: i32 },
    Button { button: u32, state: Option<ButtonState>, context: PressContext },
    AxisRelativeDirection { direction: Option<AxisRelativeDirection> },
    AxisSource { axis_source: Option<AxisSource> },
    AxisValue120 { axis: Option<Axis>, value120: i32 },
    /// `version` is the version of the `wl_pointer` that sent the event.
    Axis { axis: Option<Axis>, value: i32, version: u32 },
    Leave { surface: ObjectId },
    Other,
}

/// An event, together with the object that sent it where the client looks at that object.
#[derive(Debug)]
pub enum Event {
    Registry(RegistryEvent),
    /// The output that `Effect::BindOutput` asked for is bound.
    OutputBound { output: ObjectId },
    /// The frame callback of `surface` is done.
    FrameDone { surface: ObjectId },
    /// `version` is the version of the `wl_surface` that sent the event.
    Surface { surface: ObjectId, version: u32, event: SurfaceEvent },
    Output { output: ObjectId, event: OutputEvent },
    XdgSurfaceConfigure { xdg_surface: ObjectId, serial: u32 },
    Toplevel { toplevel: ObjectId, event: ToplevelEvent },
    Ping { serial: u32 },
    SeatCapabilities { capabilities: Option<u32> },
    Keyboard(KeyboardEvent),
    Pointer(PointerEvent),
    PreferredScale { xdg_surface: ObjectId, scale: u32 },
    /// `mode` is the bare number where the protocol crate knows no name for it.
    DecorationConfigure { xdg_surface: ObjectId, mode: Result<DecorationMode, u32> },
}

} // verus!
