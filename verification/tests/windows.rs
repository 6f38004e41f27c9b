use gpui_wayland::effects::WaylandDecorationState;
use gpui_wayland::events::{DecorationMode, OutputEvent, SurfaceEvent, ToplevelEvent};
use gpui_wayland::{CursorStyle, Effect, Event, KeyRepeat, Point, Scale, Startup, WaylandClient};
use wayland_client::protocol::wl_surface;
use wayland_protocols::xdg::shell::client::xdg_toplevel;

fn startup(outputs: Vec<u64>) -> Startup {
    Startup {
        outputs,
        compositor_version: 5,
        has_viewporter: false,
        has_fractional_scale_manager: false,
        has_decoration_manager: false,
        now: 99,
    }
}

/// A client with two outputs and the windows (1, 2, 3) and (4, 5, 6).
fn client() -> WaylandClient {
    let mut client = WaylandClient::new(startup(vec![20, 21]));
    client.open_window(1, 2, 3);
    client.open_window(4, 5, 6);
    client
}

fn surface_event(client: &mut WaylandClient, surface: u64, version: u32, event: SurfaceEvent) -> Vec<Effect> {
    client.event(&Event::Surface { surface, version, event })
}

fn set_scale(client: &mut WaylandClient, output: u64, factor: i32) {
    let event = Event::Output { output, event: OutputEvent::Scale { factor } };
    assert!(client.can_handle(&event));
    assert_eq!(client.event(&event), Vec::new());
}

fn scaled(surface: u64, factor: i32) -> Vec<Effect> {
    vec![
        Effect::Rescale { surface, scale: Scale { numerator: factor as i64, denominator: 1 } },
        Effect::SetBufferScale { surface, factor },
    ]
}

#[test]
fn new_client_is_at_rest() {
    let client = WaylandClient::new(startup(vec![20]));
    assert!(client.windows.is_empty());
    assert_eq!(client.outputs.len(), 1);
    assert_eq!(client.outputs[0].id, 20);
    assert_eq!(client.outputs[0].state.scale, 1);
    assert!(!client.has_keymap && !client.running);
    assert_eq!(client.click.last_click, 99);
    assert_eq!(client.click.current_count, 0);
    assert_eq!(client.repeat, KeyRepeat::new());
    assert_eq!(client.mouse_location, Point { x: 0, y: 0 });
    assert_eq!(client.button_pressed, None);
    assert_eq!(client.mouse_focused_window, None);
    assert_eq!(client.keyboard_focused_window, None);
    assert_eq!(client.cursor_icon_name, "arrow");
    assert!(client.displays().is_empty());
    assert_eq!(client.primary_display(), None);
}

#[test]
fn plain_window_is_framed_and_committed() {
    let mut client = WaylandClient::new(startup(Vec::new()));
    assert_eq!(
        client.open_window(1, 2, 3),
        vec![
            Effect::Frame { surface: 2 },
            Effect::Commit { surface: 2 },
            Effect::CreateWindow { surface: 2, toplevel: 3 },
        ]
    );
    assert_eq!(client.windows.len(), 1);
    assert!(client.windows[0].outputs.is_empty());
}

#[test]
fn window_uses_what_the_compositor_offers() {
    let mut client = WaylandClient::new(Startup {
        has_viewporter: true,
        has_fractional_scale_manager: true,
        has_decoration_manager: true,
        ..startup(Vec::new())
    });
    assert_eq!(
        client.open_window(1, 2, 3),
        vec![
            Effect::RequestServerDecorations { toplevel: 3, xdg_surface: 1 },
            Effect::CreateViewport { surface: 2 },
            Effect::Frame { surface: 2 },
            Effect::Commit { surface: 2 },
            Effect::CreateWindow { surface: 2, toplevel: 3 },
            Effect::CreateFractionalScale { surface: 2, xdg_surface: 1 },
        ]
    );
}

#[test]
fn cursor_style_is_remembered() {
    let mut client = client();
    client.set_cursor_style(CursorStyle::DragLink);
    assert_eq!(client.cursor_icon_name, "alias");
}

#[test]
fn event_loop_is_taken() {
    let mut client = client();
    client.run();
    assert!(client.running);
}

#[test]
fn frame_redraws_the_window_of_the_surface() {
    let mut client = client();
    assert_eq!(
        client.event(&Event::FrameDone { surface: 5 }),
        vec![
            Effect::Frame { surface: 5 },
            Effect::Update { surface: 5 },
            Effect::Commit { surface: 5 },
        ]
    );
    assert_eq!(client.event(&Event::FrameDone { surface: 4 }), Vec::new());
}

#[test]
fn configure_is_acknowledged_even_without_window() {
    let mut client = client();
    assert_eq!(
        client.event(&Event::XdgSurfaceConfigure { xdg_surface: 1, serial: 77 }),
        vec![
            Effect::AckConfigure { xdg_surface: 1, serial: 77 },
            Effect::Update { surface: 2 },
            Effect::Commit { surface: 2 },
        ]
    );
    assert_eq!(
        client.event(&Event::XdgSurfaceConfigure { xdg_surface: 9, serial: 78 }),
        vec![Effect::AckConfigure { xdg_surface: 9, serial: 78 }]
    );
}

#[test]
fn ping_is_answered() {
    assert_eq!(client().event(&Event::Ping { serial: 5 }), vec![Effect::Pong { serial: 5 }]);
}

#[test]
fn toplevel_is_resized() {
    let mut client = client();
    let configure = |width: i32, height: i32, states: Vec<u8>| Event::Toplevel {
        toplevel: 6,
        event: ToplevelEvent::Configure { width, height, states },
    };
    assert_eq!(
        client.event(&configure(800, 600, vec![1, 0, 0, 0, 4, 0, 0, 0])),
        vec![
            Effect::Resize { surface: 5, width: Some(800), height: Some(600) },
            Effect::SetFullscreen { surface: 5, fullscreen: false },
            Effect::Commit { surface: 5 },
        ]
    );
    let fullscreen = xdg_toplevel::State::Fullscreen as u8;
    assert_eq!(
        client.event(&configure(0, 0, vec![4, 0, 0, 0, fullscreen, 0, 0, 0])),
        vec![
            Effect::Resize { surface: 5, width: None, height: None },
            Effect::SetFullscreen { surface: 5, fullscreen: true },
            Effect::Commit { surface: 5 },
        ]
    );
    assert_eq!(
        client.event(&configure(-1, i32::MIN, vec![2]))[..2],
        [
            Effect::Resize { surface: 5, width: Some(0xffff_ffff), height: Some(0x8000_0000) },
            Effect::SetFullscreen { surface: 5, fullscreen: true },
        ]
    );
    let unknown = Event::Toplevel {
        toplevel: 7,
        event: ToplevelEvent::Configure { width: 1, height: 1, states: Vec::new() },
    };
    assert_eq!(client.event(&unknown), Vec::new());
    assert_eq!(
        client.event(&Event::Toplevel { toplevel: 6, event: ToplevelEvent::Other }),
        Vec::new()
    );
}

#[test]
fn closed_toplevel_is_gone() {
    let mut client = client();
    client.open_window(7, 8, 9);
    let close = Event::Toplevel { toplevel: 6, event: ToplevelEvent::Close };
    assert_eq!(client.event(&close), vec![Effect::DestroyToplevel { toplevel: 6 }]);
    let left: Vec<u64> = client.windows.iter().map(|window| window.surface).collect();
    assert_eq!(left, vec![2, 8]);
    assert_eq!(client.event(&close), Vec::new());
    assert_eq!(client.windows.len(), 2);
    let configure = Event::Toplevel {
        toplevel: 6,
        event: ToplevelEvent::Configure { width: 1, height: 1, states: Vec::new() },
    };
    assert_eq!(client.event(&configure), Vec::new());
}

#[test]
fn surface_takes_the_largest_scale_of_its_outputs() {
    let mut client = client();
    set_scale(&mut client, 20, 2);
    set_scale(&mut client, 21, 3);
    assert_eq!(surface_event(&mut client, 2, 5, SurfaceEvent::Enter { output: 20 }), scaled(2, 2));
    assert_eq!(surface_event(&mut client, 2, 5, SurfaceEvent::Enter { output: 21 }), scaled(2, 3));
    assert_eq!(surface_event(&mut client, 5, 5, SurfaceEvent::Enter { output: 20 }), scaled(5, 2));
    assert_eq!(surface_event(&mut client, 2, 5, SurfaceEvent::Leave { output: 21 }), scaled(2, 2));
    assert_eq!(surface_event(&mut client, 2, 5, SurfaceEvent::Leave { output: 20 }), scaled(2, 1));
    assert!(client.windows[0].outputs.is_empty());
    assert!(client.windows[1].outputs.contains(&20));
}

#[test]
fn unknown_output_is_not_remembered() {
    let mut client = client();
    assert_eq!(surface_event(&mut client, 2, 5, SurfaceEvent::Enter { output: 99 }), scaled(2, 1));
    assert!(client.windows[0].outputs.is_empty());
}

#[test]
fn scale_is_at_least_one() {
    let mut client = client();
    client.event(&Event::OutputBound { output: 22 });
    assert_eq!(surface_event(&mut client, 2, 5, SurfaceEvent::Enter { output: 22 }), scaled(2, 1));
    set_scale(&mut client, 22, -4);
    assert_eq!(surface_event(&mut client, 2, 5, SurfaceEvent::Enter { output: 22 }), scaled(2, 1));
}

#[test]
fn preferred_scale_takes_over() {
    let mut client = client();
    set_scale(&mut client, 20, 2);
    let since = wl_surface::EVT_PREFERRED_BUFFER_SCALE_SINCE;
    assert_eq!(since, 6);
    let enter = SurfaceEvent::Enter { output: 20 };
    assert_eq!(surface_event(&mut client, 2, since, enter), Vec::new());
    assert_eq!(
        surface_event(&mut client, 2, since, SurfaceEvent::Leave { output: 20 }),
        Vec::new()
    );
    assert_eq!(surface_event(&mut client, 2, since - 1, enter), scaled(2, 2));
    let preferred = SurfaceEvent::PreferredBufferScale { factor: 4 };
    assert_eq!(surface_event(&mut client, 2, since, preferred), scaled(2, 4));
    assert_eq!(surface_event(&mut client, 2, since, SurfaceEvent::Other), Vec::new());
    assert_eq!(surface_event(&mut client, 9, since, preferred), Vec::new());
}

#[test]
fn surface_events_need_buffer_scales() {
    let preferred = SurfaceEvent::PreferredBufferScale { factor: 4 };
    let since = wl_surface::REQ_SET_BUFFER_SCALE_SINCE;
    assert_eq!(since, 3);
    for (version, effects) in [(since - 1, Vec::new()), (since, scaled(2, 4))] {
        let mut client = WaylandClient::new(Startup {
            compositor_version: version,
            ..startup(Vec::new())
        });
        client.open_window(1, 2, 3);
        assert_eq!(surface_event(&mut client, 2, 5, preferred), effects);
    }
    let mut client = WaylandClient::new(Startup {
        has_fractional_scale_manager: true,
        ..startup(Vec::new())
    });
    client.open_window(1, 2, 3);
    assert_eq!(surface_event(&mut client, 2, 5, preferred), Vec::new());
}

#[test]
fn fractional_scale_is_in_120ths() {
    let mut client = client();
    assert_eq!(
        client.event(&Event::PreferredScale { xdg_surface: 4, scale: 180 }),
        vec![Effect::Rescale { surface: 5, scale: Scale { numerator: 180, denominator: 120 } }]
    );
    assert_eq!(client.event(&Event::PreferredScale { xdg_surface: 5, scale: 180 }), Vec::new());
}

#[test]
fn output_that_is_not_bound_cannot_be_handled() {
    let client = client();
    let scale = Event::Output { output: 99, event: OutputEvent::Scale { factor: 2 } };
    assert!(!client.can_handle(&scale));
    assert!(!client.can_handle(&Event::Output { output: 99, event: OutputEvent::Other }));
    assert!(client.can_handle(&Event::Output { output: 21, event: OutputEvent::Other }));
}

#[test]
fn decorations_follow_the_mode() {
    let mut client = client();
    let mut asks = |mode: Result<DecorationMode, u32>| {
        client.event(&Event::DecorationConfigure { xdg_surface: 1, mode })
    };
    assert_eq!(
        asks(Ok(DecorationMode::ServerSide)),
        vec![Effect::SetDecorations { surface: 2, decorations: WaylandDecorationState::Server }]
    );
    assert_eq!(
        asks(Ok(DecorationMode::ClientSide)),
        vec![Effect::SetDecorations { surface: 2, decorations: WaylandDecorationState::Client }]
    );
    assert_eq!(
        asks(Ok(DecorationMode::Other)),
        vec![Effect::WarnDecorationMode { number: None }]
    );
    assert_eq!(asks(Err(9)), vec![Effect::WarnDecorationMode { number: Some(9) }]);
    for mode in [Ok(DecorationMode::ServerSide), Ok(DecorationMode::Other), Err(9)] {
        let unknown = Event::DecorationConfigure { xdg_surface: 3, mode };
        assert_eq!(client.event(&unknown), Vec::new());
    }
}
