//! What the client asks its caller to do.

use crate::events::KeyState;
use crate::events::ObjectId;
use crate::geometry::Scale;
use crate::input::PlatformInput;
use crate::repeat::RepeatTimer;
use vstd::prelude::*;

verus! {

/// Who draws the decorations of a window.
#[derive(Clone, Copy, Debug, PartialEq, Eq, Structural)]
pub enum WaylandDecorationState {
    Server,
    Client,
}

/// One thing to do. A window is named by its `wl_surface`.
#[derive(Clone, Copy, Debug, PartialEq, Eq)]
pub enum Effect {
    /// Bind the `wl_seat` global `name`.
    BindSeat { name: u32, version: u32 },
    /// Bind the `wl_output` global `name`, and report the new object as bound.
    BindOutput { name: u32, version: u32 },
    GetKeyboard,
    GetPointer,
    Pong { serial: u32 },
    AckConfigure { xdg_surface: ObjectId, serial: u32 },
    /// Ask for a frame callback.
    Frame { surface: ObjectId },
    /// Have the window draw itself.
    Update { surface: ObjectId },
    Commit { surface: ObjectId },
    /// Resize the window; a dimension of `None` is the window's own choice.
    Resize { surface: ObjectId, width: Option<u32>, height: Option<u32> },
    SetFullscreen { surface: ObjectId, fullscreen: bool },
    /// Draw the window's content at `scale`.
    Rescale { surface: ObjectId, scale: Scale },
    SetBufferScale { surface: ObjectId, factor: i32 },
    DestroyToplevel { toplevel: ObjectId },
    SetFocused { surface: ObjectId, focused: bool },
    SetDecorations { surface: ObjectId, decorations: WaylandDecorationState },
    /// Log that a decoration mode is unknown, with its number where it has no name.
    WarnDecorationMode { number: Option<u32> },
    /// Create the toplevel's decoration object, and ask it for server-side decorations.
    RequestServerDecorations { toplevel: ObjectId, xdg_surface: ObjectId },
    CreateViewport { surface: ObjectId },
    /// Create the window itself, on the viewport if there is one.
    CreateWindow { surface: ObjectId, toplevel: ObjectId },
    CreateFractionalScale { surface: ObjectId, xdg_surface: ObjectId },
    /// Load the keymap that the event carried, and report it as loaded.
    LoadKeymap,
    /// Put the masks into the keymap's state, and report the effective modifiers.
    UpdateModifierMask {
        mods_depressed: u32,
        mods_latched: u32,
        mods_locked: u32,
        depressed_layout: u32,
        latched_layout: u32,
        locked_layout: u32,
    },
    /// Look the key up in the keymap's state, and report its keysym.
    LookUpKeysym { keycode: u32, key_state: KeyState },
    /// Arm a timer that repeats `input`.
    ArmRepeat { timer: RepeatTimer, input: PlatformInput },
    HandleInput { window: ObjectId, input: PlatformInput },
    SetCursorSerial { serial: u32 },
    SetCursorIcon { icon: &'static str },
}

/// The list of `effect` alone.
pub(crate) fn only(effect: Effect) -> (effects: Vec<Effect>)
    ensures
        effects@ == seq![effect],
{
    let mut effects: Vec<Effect> = Vec::new();
    effects.push(effect);
    assert(effects@ =~= seq![effect]);
    effects
}

} // verus!
