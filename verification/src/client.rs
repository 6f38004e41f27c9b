//! The client's state.

use crate::click::ClickState;
use crate::cursor::cursor_icon_name;
use crate::cursor::spec_cursor_icon_name;
use crate::cursor::CursorStyle;
use crate::effects::Effect;
use crate::events::AxisSource;
use crate::events::ObjectId;
use crate::geometry::Point;
use crate::history::lemma_open_keeps_invariant;
use crate::input::Modifiers;
use crate::input::MouseButton;
use crate::repeat::KeyRepeat;
use crate::repeat::TimeoutAction;
use crate::windows::output_ids;
use crate::windows::window_views;
use crate::windows::ids;
use crate::windows::Output;
use crate::windows::OutputState;
use crate::windows::Role;
use crate::windows::Window;
use crate::windows::WindowView;
use std::collections::HashSet;
use vstd::prelude::*;

verus! {

broadcast use vstd::std_specs::hash::group_hash_axioms;

/// A display, by its number.
#[derive(Clone, Copy, Debug, PartialEq, Eq, Structural)]
pub struct DisplayId(pub u32);

/// The sign that turns the movement of an axis into a movement of the content.
#[derive(Clone, Copy, Debug, PartialEq, Eq, Structural)]
pub enum ScrollDirection {
    /// The content moves against the axis.
    Against,
    /// The content moves with the axis.
    Along,
}

/// What a client finds when it connects.
#[derive(Debug)]
pub struct Startup {
    /// The outputs that were bound for the globals that were there.
    pub outputs: Vec<ObjectId>,
    /// The version at which the `wl_compositor` was bound.
    pub compositor_version: u32,
    pub has_viewporter: bool,
    pub has_fractional_scale_manager: bool,
    pub has_decoration_manager: bool,
    /// The reading of the clock that clicks are measured on, in nanoseconds.
    pub now: u128,
}

/// A Wayland client.
#[derive(Debug)]
pub struct WaylandClient {
    pub compositor_version: u32,
    pub has_viewporter: bool,
    pub has_fractional_scale_manager: bool,
    pub has_decoration_manager: bool,
    /// The windows, in the order in which they were opened.
    pub windows: Vec<Window>,
    /// The outputs, in the order in which they were bound.
    pub outputs: Vec<Output>,
    /// Whether a keymap is loaded.
    pub has_keymap: bool,
    pub click: ClickState,
    pub repeat: KeyRepeat,
    pub modifiers: Modifiers,
    pub scroll_direction: ScrollDirection,
    pub axis_source: AxisSource,
    pub mouse_location: Point,
    pub button_pressed: Option<MouseButton>,
    /// The surface of the window that has the pointer.
    pub mouse_focused_window: Option<ObjectId>,
    /// The surface of the window that has the keyboard.
    pub keyboard_focused_window: Option<ObjectId>,
    pub cursor_icon_name: &'static str,
    /// Whether the event loop was started.
    pub running: bool,
}

/// The model of a client.
#[verifier::ext_equal]
pub struct ClientView {
    pub compositor_version: u32,
    pub has_viewporter: bool,
    pub has_fractional_scale_manager: bool,
    pub has_decoration_manager: bool,
    pub windows: Seq<WindowView>,
    pub outputs: Seq<Output>,
    pub has_keymap: bool,
    pub click: ClickState,
    pub repeat: KeyRepeat,
    pub modifiers: Modifiers,
    pub scroll_direction: ScrollDirection,
    pub axis_source: AxisSource,
    pub mouse_location: Point,
    pub button_pressed: Option<MouseButton>,
    pub mouse_focused_window: Option<ObjectId>,
    pub keyboard_focused_window: Option<ObjectId>,
    pub cursor_icon_name: &'static str,
    pub running: bool,
}

impl View for WaylandClient {
    type V = ClientView;

    open spec fn view(&self) -> ClientView {
        ClientView {
            compositor_version: self.compositor_version,
            has_viewporter: self.has_viewporter,
            has_fractional_scale_manager: self.has_fractional_scale_manager,
            has_decoration_manager: self.has_decoration_manager,
            windows: window_views(self.windows@),
            outputs: self.outputs@,
            has_keymap: self.has_keymap,
            click: self.click,
            repeat: self.repeat,
            modifiers: self.modifiers,
            scroll_direction: self.scroll_direction,
            axis_source: self.axis_source,
            mouse_location: self.mouse_location,
            button_pressed: self.button_pressed,
            mouse_focused_window: self.mouse_focused_window,
            keyboard_focused_window: self.keyboard_focused_window,
            cursor_icon_name: self.cursor_icon_name,
            running: self.running,
        }
    }
}

impl ClientView {
    /// Whether a window of the surface `surface` is open.
    pub open spec fn has_surface(self, surface: ObjectId) -> bool {
        ids(self.windows, Role::Surface).contains(surface)
    }

    /// Whether an output named `output` is bound.
    pub open spec fn has_output(self, output: ObjectId) -> bool {
        output_ids(self.outputs).contains(output)
    }

    /// The invariant of a client:
    /// the focused windows are open,
    /// a surface is only on outputs that are bound,
    /// a button that is held was counted as a press,
    /// and a key that repeats was counted as a press.
    pub open spec fn wf(self) -> bool {
        &&& self.mouse_focused_window matches Some(surface) ==> self.has_surface(surface)
        &&& self.keyboard_focused_window matches Some(surface) ==> self.has_surface(surface)
        &&& forall|i: int, output: ObjectId|
            0 <= i < self.windows.len() && #[trigger] self.windows[i].outputs.contains(output)
                ==> self.has_output(output)
        &&& self.button_pressed is Some ==> self.click.current_count >= 1
        &&& self.repeat.current_keysym is Some ==> self.repeat.current_id >= 1
    }

    /// The effects of opening a window.
    pub open spec fn open_effects(
        self,
        xdg_surface: ObjectId,
        surface: ObjectId,
        toplevel: ObjectId,
    ) -> Seq<Effect> {
        let decoration = if self.has_decoration_manager {
            seq![Effect::RequestServerDecorations { toplevel, xdg_surface }]
        } else {
            seq![]
        };
        let viewport = if self.has_viewporter {
            seq![Effect::CreateViewport { surface }]
        } else {
            seq![]
        };
        let fractional_scale = if self.has_fractional_scale_manager {
            seq![Effect::CreateFractionalScale { surface, xdg_surface }]
        } else {
            seq![]
        };
        decoration + viewport + seq![
            Effect::Frame { surface },
            Effect::Commit { surface },
            Effect::CreateWindow { surface, toplevel },
        ] + fractional_scale
    }

    /// The client with one more window.
    pub open spec fn with_window(
        self,
        xdg_surface: ObjectId,
        surface: ObjectId,
        toplevel: ObjectId,
    ) -> ClientView {
        ClientView {
            windows: self.windows.push(
                WindowView { xdg_surface, surface, toplevel, outputs: Set::empty() },
            ),
            ..self
        }
    }
}

/// The outputs of a client that has just started: each has scale one until it says
/// otherwise.
pub open spec fn initial_outputs(outputs: Seq<ObjectId>) -> Seq<Output> {
    outputs.map_values(|id: ObjectId| Output { id, state: OutputState { scale: 1 } })
}

impl WaylandClient {
    /// A client that has just connected.
    pub fn new(startup: Startup) -> (client: WaylandClient)
        ensures
            client@.wf(),
            client.compositor_version == startup.compositor_version,
            client.has_viewporter == startup.has_viewporter,
            client.has_fractional_scale_manager == startup.has_fractional_scale_manager,
            client.has_decoration_manager == startup.has_decoration_manager,
            client@.windows == Seq::<WindowView>::empty(),
            client@.outputs == initial_outputs(startup.outputs@),
            !client.has_keymap,
            client.click == (ClickState {
                last_click: startup.now,
                last_location: Point { x: 0, y: 0 },
                current_count: 0,
            }),
            client.repeat == (KeyRepeat {
                characters_per_second: 16,
                delay: 500,
                current_id: 0,
                current_keysym: None,
            }),
            client.modifiers == Modifiers::spec_none(),
            client.modifiers == (Modifiers {
                shift: false,
                control: false,
                alt: false,
                function: false,
                platform: false,
            }),
            client.scroll_direction is Against,
            client.axis_source is Wheel,
            client.mouse_location == (Point { x: 0, y: 0 }),
            client.button_pressed is None,
            client.mouse_focused_window is None,
            client.keyboard_focused_window is None,
            client.cursor_icon_name@ == spec_cursor_icon_name(CursorStyle::Arrow),
            client.cursor_icon_name@ == "arrow"@,
            !client.running,
    {
        let mut outputs: Vec<Output> = Vec::new();
        let mut i: usize = 0;
        while i < startup.outputs.len()
            invariant
                i <= startup.outputs.len(),
                outputs@ == initial_outputs(startup.outputs@.take(i as int)),
            decreases startup.outputs.len() - i,
        {
            outputs.push(Output { id: startup.outputs[i], state: OutputState { scale: 1 } });
            i = i + 1;
            assert(outputs@ =~= initial_outputs(startup.outputs@.take(i as int)));
        }
        assert(startup.outputs@.take(i as int) =~= startup.outputs@);
        let client = WaylandClient {
            compositor_version: startup.compositor_version,
            has_viewporter: startup.has_viewporter,
            has_fractional_scale_manager: startup.has_fractional_scale_manager,
            has_decoration_manager: startup.has_decoration_manager,
            windows: Vec::new(),
            outputs,
            has_keymap: false,
            click: ClickState::new(startup.now),
            repeat: KeyRepeat::new(),
            modifiers: Modifiers::default(),
            scroll_direction: ScrollDirection::Against,
            axis_source: AxisSource::Wheel,
            mouse_location: Point::default(),
            button_pressed: None,
            mouse_focused_window: None,
            keyboard_focused_window: None,
            cursor_icon_name: cursor_icon_name(CursorStyle::Arrow),
            running: false,
        };
        assert(client@.windows =~= Seq::<WindowView>::empty());
        client
    }

    /// The displays that a window can be placed on: the client offers none.
    pub fn displays(&self) -> (displays: Vec<DisplayId>)
        ensures
            displays@ == Seq::<DisplayId>::empty(),
    {
        Vec::new()
    }

    /// The display that a window is placed on by itself: the client knows of none.
    pub fn primary_display(&self) -> (display: Option<DisplayId>)
        ensures
            display is None,
    {
        None
    }

    /// Opens a window on objects that the caller has created, and tells what to set up
    /// for it. The compositor may lack decorations, viewports or fractional scales, or
    /// refuse to let clients choose; where it offers decorations, they are asked of it.
    pub fn open_window(
        &mut self,
        xdg_surface: ObjectId,
        surface: ObjectId,
        toplevel: ObjectId,
    ) -> (effects: Vec<Effect>)
        ensures
            final(self)@ == old(self)@.with_window(xdg_surface, surface, toplevel),
            effects@ == old(self)@.open_effects(xdg_surface, surface, toplevel),
            old(self)@.wf() ==> final(self)@.wf(),
    {
        let mut effects: Vec<Effect> = Vec::new();
        if self.has_decoration_manager {
            effects.push(Effect::RequestServerDecorations { toplevel, xdg_surface });
        }
        if self.has_viewporter {
            effects.push(Effect::CreateViewport { surface });
        }
        effects.push(Effect::Frame { surface });
        effects.push(Effect::Commit { surface });
        effects.push(Effect::CreateWindow { surface, toplevel });
        if self.has_fractional_scale_manager {
            effects.push(Effect::CreateFractionalScale { surface, xdg_surface });
        }
        let window = Window { xdg_surface, surface, toplevel, outputs: HashSet::new() };
        self.windows.push(window);
        proof {
            assert(self@.windows =~= old(self)@.with_window(
                xdg_surface,
                surface,
                toplevel,
            ).windows);
            assert(effects@ =~= old(self)@.open_effects(xdg_surface, surface, toplevel));
            if old(self)@.wf() {
                lemma_open_keeps_invariant(old(self)@, xdg_surface, surface, toplevel);
            }
        }
        effects
    }

    /// Chooses the icon that the cursor shows from now on.
    pub fn set_cursor_style(&mut self, style: CursorStyle)
        ensures
            final(self).cursor_icon_name@ == spec_cursor_icon_name(style),
            final(self)@ == (ClientView {
                cursor_icon_name: final(self).cursor_icon_name,
                ..old(self)@
            }),
            old(self)@.wf() ==> final(self)@.wf(),
    {
        self.cursor_icon_name = cursor_icon_name(style);
    }

    /// Takes the event loop to run it. It can be taken once.
    pub fn run(&mut self)
        requires
            !old(self).running,
        ensures
            final(self)@ == (ClientView { running: true, ..old(self)@ }),
            old(self)@.wf() ==> final(self)@.wf(),
    {
        self.running = true;
    }

    /// Decides what becomes of the repeat timer of press `id`, armed at `rate`, when it
    /// expires.
    pub fn repeat_timeout(&self, id: u64, rate: u32) -> (action: TimeoutAction)
        requires
            self.repeat.repeats(id, self.keyboard_focused_window) ==> rate != 0,
        ensures
            action == self.repeat.spec_timeout(id, rate, self.keyboard_focused_window),
    {
        self.repeat.timeout(id, rate, self.keyboard_focused_window)
    }
}

/// The model of a client holds what the client holds, field by field and window by window.
pub proof fn lemma_model_is_faithful(client: WaylandClient)
    ensures
        client@.compositor_version == client.compositor_version,
        client@.has_viewporter == client.has_viewporter,
        client@.has_fractional_scale_manager == client.has_fractional_scale_manager,
        client@.has_decoration_manager == client.has_decoration_manager,
        client@.windows.len() == client.windows@.len(),
        forall|i: int|
            0 <= i < client.windows@.len() ==> #[trigger] client@.windows[i] == (WindowView {
                xdg_surface: client.windows@[i].xdg_surface,
                surface: client.windows@[i].surface,
                toplevel: client.windows@[i].toplevel,
                outputs: client.windows@[i].outputs@,
            }),
        client@.outputs == client.outputs@,
        client@.has_keymap == client.has_keymap,
        client@.click == client.click,
        client@.repeat == client.repeat,
        client@.modifiers == client.modifiers,
        client@.scroll_direction == client.scroll_direction,
        client@.axis_source == client.axis_source,
        client@.mouse_location == client.mouse_location,
        client@.button_pressed == client.button_pressed,
        client@.mouse_focused_window == client.mouse_focused_window,
        client@.keyboard_focused_window == client.keyboard_focused_window,
        client@.cursor_icon_name == client.cursor_icon_name,
        client@.running == client.running,
{
}

/// Each output that is there at the start is known under its name, in its place, at scale
/// one.
pub proof fn lemma_outputs_start_at_scale_one(outputs: Seq<ObjectId>)
    ensures
        initial_outputs(outputs).len() == outputs.len(),
        forall|i: int|
            0 <= i < outputs.len() ==> #[trigger] initial_outputs(outputs)[i] == (Output {
                id: outputs[i],
                state: OutputState { scale: 1 },
            }),
{
}

} // verus!
