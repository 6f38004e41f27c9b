//! What happens to windows and outputs, for every state of the client and every value of
//! the event.

use crate::client::ClientView;
use crate::effects::Effect;
use crate::effects::WaylandDecorationState;
use crate::events::DecorationMode;
use crate::events::Event;
use crate::events::Global;
use crate::events::ObjectId;
use crate::events::OutputEvent;
use crate::events::RegistryEvent;
use crate::events::SurfaceEvent;
use crate::events::ToplevelEvent;
use crate::geometry::Scale;
use crate::registry::globals_effects;
use crate::windows::entered_scale;
use crate::windows::first_window;
use crate::windows::ids;
use crate::windows::lemma_entered_scale_is_largest;
use crate::windows::output_ids;
use crate::windows::Output;
use crate::windows::OutputState;
use crate::windows::Role;
use crate::windows::WindowView;
use vstd::prelude::*;

verus! {

proof fn lemma_first_window(windows: Seq<WindowView>, role: Role, id: ObjectId, index: int)
    requires
        0 <= index < windows.len(),
        windows[index].id(role) == id,
        forall|i: int| 0 <= i < index ==> (#[trigger] windows[i]).id(role) != id,
    ensures
        first_window(windows, role, id) == Some(index),
{
    let names = ids(windows, role);
    names.index_of_first_ensures(id);
    assert(names[index] == id);
    let found = names.index_of_first(id)->0;
    assert(names[found] == windows[found].id(role));
}

proof fn lemma_no_window(windows: Seq<WindowView>, role: Role, id: ObjectId)
    requires
        forall|i: int| 0 <= i < windows.len() ==> (#[trigger] windows[i]).id(role) != id,
    ensures
        first_window(windows, role, id) is None,
{
    let names = ids(windows, role);
    names.index_of_first_ensures(id);
    if names.contains(id) {
        assert(windows[names.index_of(id)].id(role) == id);
    }
}

proof fn lemma_output_is_known(client: ClientView, output: ObjectId)
    ensures
        client.has_output(output) == exists|k: int|
            0 <= k < client.outputs.len() && (#[trigger] client.outputs[k]).id == output,
{
    let names = output_ids(client.outputs);
    if names.contains(output) {
        assert(client.outputs[names.index_of(output)].id == output);
    }
    if exists|k: int|
        0 <= k < client.outputs.len() && (#[trigger] client.outputs[k]).id == output {
        let k = choose|k: int|
            0 <= k < client.outputs.len() && (#[trigger] client.outputs[k]).id == output;
        assert(names[k] == output);
    }
}

/// Where a surface is not told its scale, entering an output adds it to the outputs of the
/// first window of the surface, if it is bound, and changes nothing else. The window is
/// then drawn, and its buffer scaled, by one and the same factor: at least one, at least
/// the scale of every bound output that the window is now on, and one or one of these.
pub proof fn lemma_entering_scales_to_the_largest(
    client: ClientView,
    surface: ObjectId,
    version: u32,
    output: ObjectId,
    index: int,
)
    requires
        !client.has_fractional_scale_manager,
        client.compositor_version >= 3,
        version < 6,
        0 <= index < client.windows.len(),
        client.windows[index].surface == surface,
        forall|i: int| 0 <= i < index ==> (#[trigger] client.windows[i]).surface != surface,
    ensures
        ({
            let (next, effects) = client.step(
                Event::Surface { surface, version, event: SurfaceEvent::Enter { output } },
            );
            let outputs = next.windows[index].outputs;
            let factor = effects[1]->factor;
            &&& outputs == if exists|k: int|
                0 <= k < client.outputs.len() && (#[trigger] client.outputs[k]).id == output {
                client.windows[index].outputs.insert(output)
            } else {
                client.windows[index].outputs
            }
            &&& next == (ClientView {
                windows: client.windows.update(
                    index,
                    WindowView { outputs, ..client.windows[index] },
                ),
                ..client
            })
            &&& effects == seq![
                Effect::Rescale {
                    surface,
                    scale: Scale { numerator: factor as i64, denominator: 1 },
                },
                Effect::SetBufferScale { surface, factor },
            ]
            &&& factor >= 1
            &&& forall|k: int|
                0 <= k < client.outputs.len() && outputs.contains(
                    (#[trigger] client.outputs[k]).id,
                ) ==> factor >= client.outputs[k].state.scale
            &&& factor == 1 || exists|k: int|
                0 <= k < client.outputs.len() && outputs.contains(
                    (#[trigger] client.outputs[k]).id,
                ) && factor == client.outputs[k].state.scale
        }),
{
    let event = SurfaceEvent::Enter { output };
    lemma_first_window(client.windows, Role::Surface, surface, index);
    lemma_output_is_known(client, output);
    let next = client.step(Event::Surface { surface, version, event }).0;
    lemma_entered_scale_is_largest(client.outputs, next.windows[index].outputs);
}

/// Where a surface is not told its scale, leaving an output takes it from the outputs of
/// the first window of the surface, and changes nothing else. The window is then drawn, and
/// its buffer scaled, by one and the same factor: at least one, at least the scale of every
/// bound output that the window is still on, and one or one of these.
pub proof fn lemma_leaving_scales_to_the_largest(
    client: ClientView,
    surface: ObjectId,
    version: u32,
    output: ObjectId,
    index: int,
)
    requires
        !client.has_fractional_scale_manager,
        client.compositor_version >= 3,
        version < 6,
        0 <= index < client.windows.len(),
        client.windows[index].surface == surface,
        forall|i: int| 0 <= i < index ==> (#[trigger] client.windows[i]).surface != surface,
    ensures
        ({
            let (next, effects) = client.step(
                Event::Surface { surface, version, event: SurfaceEvent::Leave { output } },
            );
            let outputs = next.windows[index].outputs;
            let factor = effects[1]->factor;
            &&& outputs == client.windows[index].outputs.remove(output)
            &&& next == (ClientView {
                windows: client.windows.update(
                    index,
                    WindowView { outputs, ..client.windows[index] },
                ),
                ..client
            })
            &&& effects == seq![
                Effect::Rescale {
                    surface,
                    scale: Scale { numerator: factor as i64, denominator: 1 },
                },
                Effect::SetBufferScale { surface, factor },
            ]
            &&& factor >= 1
            &&& forall|k: int|
                0 <= k < client.outputs.len() && outputs.contains(
                    (#[trigger] client.outputs[k]).id,
                ) ==> factor >= client.outputs[k].state.scale
            &&& factor == 1 || exists|k: int|
                0 <= k < client.outputs.len() && outputs.contains(
                    (#[trigger] client.outputs[k]).id,
                ) && factor == client.outputs[k].state.scale
        }),
{
    let event = SurfaceEvent::Leave { output };
    lemma_first_window(client.windows, Role::Surface, surface, index);
    let next = client.step(Event::Surface { surface, version, event }).0;
    lemma_entered_scale_is_largest(client.outputs, next.windows[index].outputs);
}

/// A surface that is told its scale is drawn, and its buffer scaled, by that factor, at
/// every version of the surface and whatever outputs it is on.
pub proof fn lemma_preferred_buffer_scale_is_used(
    client: ClientView,
    surface: ObjectId,
    version: u32,
    factor: i32,
    index: int,
)
    requires
        !client.has_fractional_scale_manager,
        client.compositor_version >= 3,
        0 <= index < client.windows.len(),
        client.windows[index].surface == surface,
    ensures
        client.step(
            Event::Surface {
                surface,
                version,
                event: SurfaceEvent::PreferredBufferScale { factor },
            },
        ) == (
            client,
            seq![
                Effect::Rescale {
                    surface,
                    scale: Scale { numerator: factor as i64, denominator: 1 },
                },
                Effect::SetBufferScale { surface, factor },
            ],
        ),
{
    let names = ids(client.windows, Role::Surface);
    names.index_of_first_ensures(surface);
    assert(names[index] == surface);
}

/// Surface events do nothing where the compositor sends fractional scales, where it cannot
/// be told a scale, and for a surface of no window; nor do entering and leaving where the
/// surface is told its scale, nor events of no interest.
pub proof fn lemma_idle_surface_events(
    client: ClientView,
    surface: ObjectId,
    version: u32,
    event: SurfaceEvent,
)
    requires
        client.has_fractional_scale_manager || client.compositor_version < 3 || event is Other || (
        version >= 6 && (event is Enter || event is Leave)) || forall|i: int|
            0 <= i < client.windows.len() ==> (#[trigger] client.windows[i]).surface != surface,
    ensures
        client.step(Event::Surface { surface, version, event }) == (
            client,
            Seq::<Effect>::empty(),
        ),
{
    if forall|i: int|
        0 <= i < client.windows.len() ==> (#[trigger] client.windows[i]).surface != surface {
        lemma_no_window(client.windows, Role::Surface, surface);
    }
}

/// An output that says its scale has that scale from then on, whatever it had before; every
/// other output keeps its own, and nothing else changes.
pub proof fn lemma_output_scale_is_taken_over(
    client: ClientView,
    output: ObjectId,
    factor: i32,
    index: int,
)
    requires
        0 <= index < client.outputs.len(),
        client.outputs[index].id == output,
        forall|k: int| 0 <= k < index ==> (#[trigger] client.outputs[k]).id != output,
    ensures
        client.step(Event::Output { output, event: OutputEvent::Scale { factor } }) == (
            ClientView {
                outputs: client.outputs.update(
                    index,
                    Output { id: output, state: OutputState { scale: factor } },
                ),
                ..client
            },
            Seq::<Effect>::empty(),
        ),
        client.step(Event::Output { output, event: OutputEvent::Other }) == (
            client,
            Seq::<Effect>::empty(),
        ),
{
    let names = output_ids(client.outputs);
    names.index_of_first_ensures(output);
    assert(names[index] == output);
    let found = names.index_of_first(output)->0;
    assert(names[found] == client.outputs[found].id);
}

/// An output that is bound later comes last, with no scale yet, and nothing else changes.
pub proof fn lemma_bound_output_is_kept(client: ClientView, output: ObjectId)
    ensures
        client.step(Event::OutputBound { output }) == (
            ClientView {
                outputs: client.outputs.push(
                    Output { id: output, state: OutputState { scale: 0 } },
                ),
                ..client
            },
            Seq::<Effect>::empty(),
        ),
{
}

/// What a frame callback asks: nothing without windows, and for each further window of the
/// surface the next callback, a new picture, and to show it. Nothing changes.
pub proof fn lemma_frame_serves_each_window(
    client: ClientView,
    surface: ObjectId,
    window: WindowView,
)
    ensures
        ({
            let event = Event::FrameDone { surface };
            let more = ClientView { windows: client.windows.push(window), ..client };
            let none = ClientView { windows: Seq::empty(), ..client };
            &&& client.step(event).0 == client
            &&& none.step(event).1 == Seq::<Effect>::empty()
            &&& more.step(event).1 == client.step(event).1 + if window.surface == surface {
                seq![
                    Effect::Frame { surface },
                    Effect::Update { surface },
                    Effect::Commit { surface },
                ]
            } else {
                Seq::<Effect>::empty()
            }
        }),
{
    assert(client.windows.push(window).drop_last() =~= client.windows);
}

/// A configured xdg surface is acknowledged first; the first window of it is then drawn and
/// shown. Nothing changes.
pub proof fn lemma_xdg_surface_is_acknowledged(
    client: ClientView,
    xdg_surface: ObjectId,
    serial: u32,
    index: int,
)
    requires
        0 <= index < client.windows.len(),
        client.windows[index].xdg_surface == xdg_surface,
        forall|i: int|
            0 <= i < index ==> (#[trigger] client.windows[i]).xdg_surface != xdg_surface,
    ensures
        client.step(Event::XdgSurfaceConfigure { xdg_surface, serial }) == (
            client,
            seq![
                Effect::AckConfigure { xdg_surface, serial },
                Effect::Update { surface: client.windows[index].surface },
                Effect::Commit { surface: client.windows[index].surface },
            ],
        ),
{
    lemma_first_window(client.windows, Role::XdgSurface, xdg_surface, index);
}

/// A configured xdg surface of no window is acknowledged all the same. Scales and
/// decorations for one are ignored.
pub proof fn lemma_xdg_surface_of_no_window(
    client: ClientView,
    xdg_surface: ObjectId,
    serial: u32,
    scale: u32,
    mode: Result<DecorationMode, u32>,
)
    requires
        forall|i: int|
            0 <= i < client.windows.len() ==> (#[trigger] client.windows[i]).xdg_surface
                != xdg_surface,
    ensures
        client.step(Event::XdgSurfaceConfigure { xdg_surface, serial }) == (
            client,
            seq![Effect::AckConfigure { xdg_surface, serial }],
        ),
        client.step(Event::PreferredScale { xdg_surface, scale }) == (
            client,
            Seq::<Effect>::empty(),
        ),
        client.step(Event::DecorationConfigure { xdg_surface, mode }) == (
            client,
            Seq::<Effect>::empty(),
        ),
{
    lemma_no_window(client.windows, Role::XdgSurface, xdg_surface);
}

/// A fractional scale counts in 120ths, and goes to the first window of the xdg surface;
/// no buffer is scaled by it. Nothing changes.
pub proof fn lemma_fractional_scale_counts_in_120ths(
    client: ClientView,
    xdg_surface: ObjectId,
    scale: u32,
    index: int,
)
    requires
        0 <= index < client.windows.len(),
        client.windows[index].xdg_surface == xdg_surface,
        forall|i: int|
            0 <= i < index ==> (#[trigger] client.windows[i]).xdg_surface != xdg_surface,
    ensures
        client.step(Event::PreferredScale { xdg_surface, scale }) == (
            client,
            seq![
                Effect::Rescale {
                    surface: client.windows[index].surface,
                    scale: Scale { numerator: scale as i64, denominator: 120 },
                },
            ],
        ),
{
    lemma_first_window(client.windows, Role::XdgSurface, xdg_surface, index);
}

/// The mode of the decorations goes to the first window of the xdg surface; a mode that is
/// not known is warned of, with its number where it has no name. Nothing changes.
pub proof fn lemma_decoration_mode_is_passed_on(
    client: ClientView,
    xdg_surface: ObjectId,
    mode: Result<DecorationMode, u32>,
    index: int,
)
    requires
        0 <= index < client.windows.len(),
        client.windows[index].xdg_surface == xdg_surface,
        forall|i: int|
            0 <= i < index ==> (#[trigger] client.windows[i]).xdg_surface != xdg_surface,
    ensures
        client.step(Event::DecorationConfigure { xdg_surface, mode }) == (
            client,
            seq![
                match mode {
                    Ok(DecorationMode::ServerSide) => Effect::SetDecorations {
                        surface: client.windows[index].surface,
                        decorations: WaylandDecorationState::Server,
                    },
                    Ok(DecorationMode::ClientSide) => Effect::SetDecorations {
                        surface: client.windows[index].surface,
                        decorations: WaylandDecorationState::Client,
                    },
                    Ok(DecorationMode::Other) => Effect::WarnDecorationMode { number: None },
                    Err(number) => Effect::WarnDecorationMode { number: Some(number) },
                },
            ],
        ),
{
    lemma_first_window(client.windows, Role::XdgSurface, xdg_surface, index);
}

/// A configured toplevel gives the first window of it its size, each dimension as the 32
/// bits that were sent and none where it is zero, tells it whether it fills the screen, and
/// shows it. Nothing changes.
pub proof fn lemma_toplevel_is_configured(
    client: ClientView,
    toplevel: ObjectId,
    width: i32,
    height: i32,
    states: Vec<u8>,
    index: int,
)
    requires
        0 <= index < client.windows.len(),
        client.windows[index].toplevel == toplevel,
        forall|i: int| 0 <= i < index ==> (#[trigger] client.windows[i]).toplevel != toplevel,
    ensures
        ({
            let surface = client.windows[index].surface;
            let (next, effects) = client.step(
                Event::Toplevel {
                    toplevel,
                    event: ToplevelEvent::Configure { width, height, states },
                },
            );
            let wide = effects[0]->width;
            let high = effects[0]->height;
            let fullscreen = effects[1]->fullscreen;
            &&& next == client
            &&& effects == seq![
                Effect::Resize { surface, width: wide, height: high },
                Effect::SetFullscreen { surface, fullscreen },
                Effect::Commit { surface },
            ]
            &&& wide is None <==> width == 0
            &&& wide matches Some(pixels) ==> pixels == width || pixels == width + 0x1_0000_0000
            &&& high is None <==> height == 0
            &&& high matches Some(pixels) ==> pixels == height || pixels == height + 0x1_0000_0000
            &&& fullscreen <==> exists|i: int| 0 <= i < states@.len() && #[trigger] states@[i] == 2
        }),
{
    lemma_first_window(client.windows, Role::Toplevel, toplevel, index);
}

/// Configuring the toplevel of no window does nothing; nor do events of no interest.
pub proof fn lemma_idle_toplevel_events(client: ClientView, toplevel: ObjectId, event: ToplevelEvent)
    requires
        event is Other || (event is Configure && forall|i: int|
            0 <= i < client.windows.len() ==> (#[trigger] client.windows[i]).toplevel != toplevel),
    ensures
        client.step(Event::Toplevel { toplevel, event }) == (client, Seq::<Effect>::empty()),
{
    if event is Configure {
        lemma_no_window(client.windows, Role::Toplevel, toplevel);
    }
}

/// What closing a toplevel does: nothing without windows; each further window stays, in its
/// place, unless it is one of the toplevel's, for which one request to destroy goes out.
/// Only the table of windows changes.
pub proof fn lemma_close_takes_each_window(
    client: ClientView,
    toplevel: ObjectId,
    window: WindowView,
)
    ensures
        ({
            let event = Event::Toplevel { toplevel, event: ToplevelEvent::Close };
            let more = ClientView { windows: client.windows.push(window), ..client };
            let none = ClientView { windows: Seq::empty(), ..client };
            &&& client.step(event).0 == (ClientView {
                windows: client.step(event).0.windows,
                ..client
            })
            &&& none.step(event) == (none, Seq::<Effect>::empty())
            &&& more.step(event).0.windows == if window.toplevel == toplevel {
                client.step(event).0.windows
            } else {
                client.step(event).0.windows.push(window)
            }
            &&& more.step(event).1 == if window.toplevel == toplevel {
                client.step(event).1.push(Effect::DestroyToplevel { toplevel })
            } else {
                client.step(event).1
            }
        }),
{
    reveal(Seq::filter);
    assert(client.windows.push(window).drop_last() =~= client.windows);
}

/// A window that is opened comes last in the table, on no output, and nothing else changes.
/// Decorations and a viewport are asked for first, and a fractional scale last, each where
/// the compositor has them; in between the window gets its first callback, is shown, and is
/// made.
pub proof fn lemma_window_is_opened(
    client: ClientView,
    xdg_surface: ObjectId,
    surface: ObjectId,
    toplevel: ObjectId,
)
    ensures
        client.with_window(xdg_surface, surface, toplevel) == (ClientView {
            windows: client.windows.push(
                WindowView { xdg_surface, surface, toplevel, outputs: Set::empty() },
            ),
            ..client
        }),
        ({
            let effects = client.open_effects(xdg_surface, surface, toplevel);
            let decorated = if client.has_decoration_manager {
                1int
            } else {
                0
            };
            let viewed = if client.has_viewporter {
                1int
            } else {
                0
            };
            let scaled = if client.has_fractional_scale_manager {
                1int
            } else {
                0
            };
            let first = decorated + viewed;
            &&& effects.len() == first + 3 + scaled
            &&& client.has_decoration_manager ==> effects[0] == (
            Effect::RequestServerDecorations { toplevel, xdg_surface })
            &&& client.has_viewporter ==> effects[decorated] == (Effect::CreateViewport {
                surface,
            })
            &&& effects[first] == (Effect::Frame { surface })
            &&& effects[first + 1] == (Effect::Commit { surface })
            &&& effects[first + 2] == (Effect::CreateWindow { surface, toplevel })
            &&& client.has_fractional_scale_manager ==> effects[first + 3] == (
            Effect::CreateFractionalScale { surface, xdg_surface })
        }),
{
}

/// Every ping is answered with its own serial.
pub proof fn lemma_ping_is_answered(client: ClientView, serial: u32)
    ensures
        client.step(Event::Ping { serial }) == (client, seq![Effect::Pong { serial }]),
{
}

/// The keyboard and the pointer of a seat are asked for, the keyboard first, exactly where
/// the seat has them. Nothing changes.
pub proof fn lemma_devices_are_asked_for(client: ClientView, bits: u32)
    ensures
        client.step(Event::SeatCapabilities { capabilities: Some(bits) }) == (
            client,
            if bits & 2 == 2 && bits & 1 == 1 {
                seq![Effect::GetKeyboard, Effect::GetPointer]
            } else if bits & 2 == 2 {
                seq![Effect::GetKeyboard]
            } else if bits & 1 == 1 {
                seq![Effect::GetPointer]
            } else {
                Seq::<Effect>::empty()
            },
        ),
        client.step(Event::SeatCapabilities { capabilities: None }) == (
            client,
            Seq::<Effect>::empty(),
        ),
{
}

/// A seat is bound at version eight where it is offered so high, else at version four; an
/// output at version two; no other global is. Nothing changes, and nothing happens when a
/// global goes.
pub proof fn lemma_globals_that_are_bound(client: ClientView, global: Global, name: u32)
    ensures
        client.step(Event::Registry(RegistryEvent::Global(global))) == (
            client,
            if global.interface@ == "wl_seat"@ && global.version >= 8 {
                seq![Effect::BindSeat { name: global.name, version: 8 }]
            } else if global.interface@ == "wl_seat"@ {
                seq![Effect::BindSeat { name: global.name, version: 4 }]
            } else if global.interface@ == "wl_output"@ {
                seq![Effect::BindOutput { name: global.name, version: 2 }]
            } else {
                Seq::<Effect>::empty()
            },
        ),
        client.step(Event::Registry(RegistryEvent::GlobalRemove { name })) == (
            client,
            Seq::<Effect>::empty(),
        ),
{
}

/// The globals that are there at the start are bound one by one, in their order, each as
/// one that is announced later is.
pub proof fn lemma_globals_are_bound_in_order(
    client: ClientView,
    globals: Seq<Global>,
    global: Global,
)
    ensures
        globals_effects(Seq::empty()) == Seq::<Effect>::empty(),
        globals_effects(globals.push(global)) == globals_effects(globals) + client.step(
            Event::Registry(RegistryEvent::Global(global)),
        ).1,
{
    assert(globals.push(global).drop_last() =~= globals);
}

/// Besides events of the keyboard and the pointer, the only events that the client cannot
/// work with are the offer of a seat below version four, and events of an output that is
/// not bound.
pub proof fn lemma_other_events_that_are_accepted(client: ClientView, event: Event)
    requires
        event !is Keyboard,
        event !is Pointer,
    ensures
        client.accepts(event) == match event {
            Event::Registry(RegistryEvent::Global(global)) => global.interface@ == "wl_seat"@
                ==> global.version >= 4,
            Event::Output { output, .. } => exists|k: int|
                0 <= k < client.outputs.len() && (#[trigger] client.outputs[k]).id == output,
            _ => true,
        },
{
    match event {
        Event::Output { output, .. } => {
            lemma_output_is_known(client, output);
        },
        _ => {},
    }
}

/// The scale of a window does not depend on the order in which it entered two
/// outputs.
pub proof fn lemma_order_of_entering_does_not_matter(
    client: ClientView,
    surface: ObjectId,
    version: u32,
    a: ObjectId,
    b: ObjectId,
    index: int,
)
    requires
        !client.has_fractional_scale_manager,
        client.compositor_version >= 3,
        version < 6,
        0 <= index < client.windows.len(),
        client.windows[index].surface == surface,
        forall|i: int| 0 <= i < index ==> (#[trigger] client.windows[i]).surface != surface,
    ensures
        ({
            let enter_a = Event::Surface {
                surface,
                version,
                event: SurfaceEvent::Enter { output: a },
            };
            let enter_b = Event::Surface {
                surface,
                version,
                event: SurfaceEvent::Enter { output: b },
            };
            let ends_with_b = client.step(enter_a).0.step(enter_b);
            let ends_with_a = client.step(enter_b).0.step(enter_a);
            &&& ends_with_a.0.windows =~~= ends_with_b.0.windows
            &&& ends_with_a.1 == ends_with_b.1
        }),
{
    let enter_a = Event::Surface { surface, version, event: SurfaceEvent::Enter { output: a } };
    let enter_b = Event::Surface { surface, version, event: SurfaceEvent::Enter { output: b } };
    let after_a = client.step(enter_a).0;
    let after_b = client.step(enter_b).0;
    lemma_first_window(client.windows, Role::Surface, surface, index);
    lemma_first_window(after_a.windows, Role::Surface, surface, index);
    lemma_first_window(after_b.windows, Role::Surface, surface, index);
    let entered_ab = after_a.step(enter_b).0.windows[index].outputs;
    let entered_ba = after_b.step(enter_a).0.windows[index].outputs;
    assert(entered_ab =~= entered_ba);
    assert(entered_scale(client.outputs, entered_ab) == entered_scale(client.outputs, entered_ba));
}

} // verus!
