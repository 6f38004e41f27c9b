//! The client's answer to every event.

use crate::client::ClientView;
use crate::client::WaylandClient;
use crate::effects::only;
use crate::effects::Effect;
use crate::events::Event;
use crate::events::KeyboardEvent;
use crate::events::ObjectId;
use crate::events::OutputEvent;
use crate::events::PointerEvent;
use crate::events::RegistryEvent;
use crate::events::SurfaceEvent;
use crate::events::ToplevelEvent;
use crate::input::spec_mouse_button;
use crate::registry::accepts_global;
use crate::registry::can_use_global;
use crate::registry::registry_effects;
use crate::registry::registry_event;
use crate::registry::seat_effects;
use crate::registry::seat_event;
use crate::surface::frame_effects;
use crate::windows::find_output;
use crate::windows::for_each_window;
use crate::windows::ids;
use crate::windows::output_ids;
use crate::windows::Role;
use crate::windows::WindowView;
use vstd::prelude::*;

verus! {

impl ClientView {
    /// Whether the client can work with an event.
    pub open spec fn accepts(self, event: Event) -> bool {
        match event {
            Event::Registry(RegistryEvent::Global(global)) => accepts_global(global),
            Event::Output { output, .. } => self.has_output(output),
            Event::Keyboard(event) => self.accepts_keyboard(event),
            Event::Pointer(event) => self.accepts_pointer(event),
            _ => true,
        }
    }

    /// What an event does, and what it asks.
    pub open spec fn step(self, event: Event) -> (ClientView, Seq<Effect>) {
        match event {
            Event::Registry(event) => (self, registry_effects(event)),
            Event::OutputBound { output } => (self.with_output(output), seq![]),
            Event::FrameDone { surface } => (
                self,
                for_each_window(self.windows, surface, frame_effects(surface)),
            ),
            Event::Surface { surface, version, event } => self.surface_step(
                surface,
                version,
                event,
            ),
            Event::Output { output, event } => (self.output_step(output, event), seq![]),
            Event::XdgSurfaceConfigure { xdg_surface, serial } => (
                self,
                self.xdg_surface_effects(xdg_surface, serial),
            ),
            Event::Toplevel { toplevel, event } => self.toplevel_step(toplevel, event),
            Event::Ping { serial } => (self, seq![Effect::Pong { serial }]),
            Event::SeatCapabilities { capabilities } => (self, seat_effects(capabilities)),
            Event::Keyboard(event) => self.keyboard_step(event),
            Event::Pointer(event) => self.pointer_step(event),
            Event::PreferredScale { xdg_surface, scale } => (
                self,
                self.preferred_scale_effects(xdg_surface, scale),
            ),
            Event::DecorationConfigure { xdg_surface, mode } => (
                self,
                self.decoration_effects(xdg_surface, mode),
            ),
        }
    }

    /// Whether a window of `surface` stays open when the windows of `toplevel` close.
    pub open spec fn survives(self, surface: ObjectId, toplevel: ObjectId) -> bool {
        exists|i: int|
            0 <= i < self.windows.len() && (#[trigger] self.windows[i]).surface == surface
                && self.windows[i].toplevel != toplevel
    }

    /// Whether `event` closes a window that has the pointer or the keyboard.
    pub open spec fn closes_focus(self, event: Event) -> bool {
        match event {
            Event::Toplevel { toplevel, event: ToplevelEvent::Close } => {
                ||| self.mouse_focused_window matches Some(surface) && !self.survives(
                    surface,
                    toplevel,
                )
                ||| self.keyboard_focused_window matches Some(surface) && !self.survives(
                    surface,
                    toplevel,
                )
            },
            _ => false,
        }
    }
}

proof fn lemma_close_keeps_invariant(client: ClientView, toplevel: ObjectId)
    requires
        client.wf(),
        !client.closes_focus(Event::Toplevel { toplevel, event: ToplevelEvent::Close }),
    ensures
        client.toplevel_step(toplevel, ToplevelEvent::Close).0.wf(),
{
    let stays = |window: WindowView| window.toplevel != toplevel;
    let next = client.toplevel_step(toplevel, ToplevelEvent::Close).0;
    assert(next.windows == client.windows.filter(stays));
    assert forall|surface: ObjectId| client.survives(surface, toplevel) implies next.has_surface(
        surface,
    ) by {
        let i = choose|i: int|
            0 <= i < client.windows.len() && (#[trigger] client.windows[i]).surface == surface
                && client.windows[i].toplevel != toplevel;
        assert(stays(client.windows[i]));
        client.windows.lemma_filter_contains(stays, i);
        assert(next.windows.contains(client.windows[i]));
        let j = choose|j: int|
            0 <= j < next.windows.len() && next.windows[j] == client.windows[i];
        assert(ids(next.windows, Role::Surface)[j] == surface);
    }
    assert forall|i: int, output: ObjectId|
        0 <= i < next.windows.len() && #[trigger] next.windows[i].outputs.contains(
            output,
        ) implies next.has_output(output) by {
        assert(next.windows.contains(next.windows[i]));
        client.windows.lemma_filter_contains_rev(stays, next.windows[i]);
        let j = choose|j: int|
            0 <= j < client.windows.len() && client.windows[j] == next.windows[i];
        assert(client.windows[j].outputs.contains(output));
    }
}

proof fn lemma_surface_keeps_invariant(
    client: ClientView,
    surface: ObjectId,
    version: u32,
    event: SurfaceEvent,
)
    requires
        client.wf(),
    ensures
        client.surface_step(surface, version, event).0.wf(),
{
    let next = client.surface_step(surface, version, event).0;
    ids(client.windows, Role::Surface).index_of_first_ensures(surface);
    assert(ids(next.windows, Role::Surface) =~= ids(client.windows, Role::Surface));
}

proof fn lemma_output_keeps_invariant(client: ClientView, output: ObjectId, event: OutputEvent)
    requires
        client.wf(),
        client.has_output(output),
    ensures
        client.output_step(output, event).wf(),
{
    output_ids(client.outputs).index_of_first_ensures(output);
    assert(output_ids(client.output_step(output, event).outputs) =~= output_ids(client.outputs));
}

/// The parts of the invariant that speak of the tables hold on where neither table changes
/// and every focused window was open.
proof fn lemma_same_tables_keep_invariant(client: ClientView, next: ClientView)
    requires
        client.wf(),
        next.windows == client.windows,
        next.outputs == client.outputs,
        next.mouse_focused_window matches Some(surface) ==> client.has_surface(surface),
        next.keyboard_focused_window matches Some(surface) ==> client.has_surface(surface),
        next.button_pressed is Some ==> next.click.current_count >= 1,
        next.repeat.current_keysym is Some ==> next.repeat.current_id >= 1,
    ensures
        next.wf(),
{
    assert forall|i: int, output: ObjectId|
        0 <= i < next.windows.len() && #[trigger] next.windows[i].outputs.contains(
            output,
        ) implies next.has_output(output) by {
        assert(client.windows[i].outputs.contains(output));
    }
}

proof fn lemma_keyboard_keeps_invariant(client: ClientView, event: KeyboardEvent)
    requires
        client.wf(),
        client.accepts_keyboard(event),
    ensures
        client.keyboard_step(event).0.wf(),
{
    lemma_same_tables_keep_invariant(client, client.keyboard_step(event).0);
}

#[verifier::rlimit(40)]
proof fn lemma_pointer_keeps_invariant(client: ClientView, event: PointerEvent)
    requires
        client.wf(),
        client.accepts_pointer(event),
    ensures
        client.pointer_step(event).0.wf(),
{
    let next = client.pointer_step(event).0;
    match event {
        PointerEvent::Enter { .. } => {
            lemma_same_tables_keep_invariant(client, next);
        },
        PointerEvent::Leave { .. } => {
            lemma_same_tables_keep_invariant(client, next);
        },
        PointerEvent::Button { button, state, context } => {
            match (spec_mouse_button(button), state, client.mouse_focused_window) {
                (Some(button), Some(state), Some(window)) => {
                    assert(next == client.button_step(window, button, state, context).0);
                    lemma_same_tables_keep_invariant(client, next);
                },
                _ => {},
            }
        },
        _ => {
            lemma_same_tables_keep_invariant(client, next);
        },
    }
}

/// Every event that the client can work with keeps its invariant, except that closing a
/// window leaves the focus where it is.
pub proof fn lemma_step_keeps_invariant(client: ClientView, event: Event)
    requires
        client.wf(),
        client.accepts(event),
        !client.closes_focus(event),
    ensures
        client.step(event).0.wf(),
{
    match event {
        Event::OutputBound { output } => {
            let next = client.with_output(output);
            assert(output_ids(next.outputs) =~= output_ids(client.outputs).push(output));
            assert forall|o: ObjectId| client.has_output(o) implies next.has_output(o) by {
                let i = output_ids(client.outputs).index_of(o);
                assert(output_ids(next.outputs)[i] == o);
            }
        },
        Event::Surface { surface, version, event } => {
            lemma_surface_keeps_invariant(client, surface, version, event);
        },
        Event::Output { output, event } => {
            lemma_output_keeps_invariant(client, output, event);
        },
        Event::Toplevel { toplevel, event } => {
            if event is Close {
                lemma_close_keeps_invariant(client, toplevel);
            }
        },
        Event::Keyboard(event) => {
            lemma_keyboard_keeps_invariant(client, event);
        },
        Event::Pointer(event) => {
            lemma_pointer_keeps_invariant(client, event);
        },
        _ => {},
    }
}

impl WaylandClient {
    /// Tells whether the client can work with `event` as things stand.
    pub fn can_handle(&self, event: &Event) -> (accepted: bool)
        ensures
            accepted == self@.accepts(*event),
    {
        match event {
            Event::Registry(RegistryEvent::Global(global)) => can_use_global(global),
            Event::Output { output, .. } => {
                proof {
                    output_ids(self.outputs@).index_of_first_ensures(*output);
                }
                find_output(&self.outputs, *output).is_some()
            },
            Event::Keyboard(event) => self.can_handle_keyboard(*event),
            Event::Pointer(event) => self.can_handle_pointer(*event),
            _ => true,
        }
    }

    /// Takes note of `event`, and tells what to do about it.
    pub fn event(&mut self, event: &Event) -> (effects: Vec<Effect>)
        requires
            old(self)@.accepts(*event),
        ensures
            final(self)@ == old(self)@.step(*event).0,
            effects@ == old(self)@.step(*event).1,
            old(self)@.wf() && !old(self)@.closes_focus(*event) ==> final(self)@.wf(),
    {
        proof {
            if self@.wf() && !self@.closes_focus(*event) {
                lemma_step_keeps_invariant(self@, *event);
            }
        }
        match event {
            Event::Registry(event) => registry_event(event),
            Event::OutputBound { output } => {
                self.output_bound(*output);
                Vec::new()
            },
            Event::FrameDone { surface } => self.frame_done(*surface),
            Event::Surface { surface, version, event } => self.surface_event(
                *surface,
                *version,
                *event,
            ),
            Event::Output { output, event } => {
                self.output_event(*output, *event);
                Vec::new()
            },
            Event::XdgSurfaceConfigure { xdg_surface, serial } => self.xdg_surface_configure(
                *xdg_surface,
                *serial,
            ),
            Event::Toplevel { toplevel, event } => self.toplevel_event(*toplevel, event),
            Event::Ping { serial } => only(Effect::Pong { serial: *serial }),
            Event::SeatCapabilities { capabilities } => seat_event(*capabilities),
            Event::Keyboard(event) => self.keyboard_event(*event),
            Event::Pointer(event) => self.pointer_event(*event),
            Event::PreferredScale { xdg_surface, scale } => self.preferred_scale(
                *xdg_surface,
                *scale,
            ),
            Event::DecorationConfigure { xdg_surface, mode } => self.decoration_configure(
                *xdg_surface,
                *mode,
            ),
        }
    }
}

} // verus!
