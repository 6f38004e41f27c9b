use gpui_wayland::events::{Global, RegistryEvent};
use gpui_wayland::registry::{
    bind_globals, can_use_global, singleton_binding, Singleton, SingletonBinding,
};
use gpui_wayland::{wl_seat_version, Effect, Event, Startup, WaylandClient};
use wayland_client::protocol::{wl_pointer, wl_seat, wl_surface};

fn global(name: u32, interface: &str, version: u32) -> Global {
    Global { name, interface: interface.to_string(), version }
}

fn client() -> WaylandClient {
    WaylandClient::new(Startup {
        outputs: vec![10, 11],
        compositor_version: 5,
        has_viewporter: false,
        has_fractional_scale_manager: false,
        has_decoration_manager: false,
        now: 0,
    })
}

#[test]
fn seats_are_bound_at_one_of_two_versions() {
    assert_eq!(wl_seat_version(4), 4);
    assert_eq!(wl_seat_version(7), 4);
    assert_eq!(wl_seat_version(8), 8);
    assert_eq!(wl_seat_version(9), 8);
    assert_eq!(wl_seat_version(u32::MAX), wl_pointer::EVT_AXIS_VALUE120_SINCE);
}

#[test]
fn seats_and_outputs_are_bound_in_order() {
    let globals = vec![
        global(1, "wl_compositor", 6),
        global(2, "wl_output", 4),
        global(3, "wl_seat", 9),
        global(4, "wl_outputs", 4),
        global(5, "wl_output", 1),
        global(6, "wl_seat", 5),
    ];
    assert!(globals.iter().all(can_use_global));
    assert_eq!(
        bind_globals(&globals),
        vec![
            Effect::BindOutput { name: 2, version: 2 },
            Effect::BindSeat { name: 3, version: 8 },
            Effect::BindOutput { name: 5, version: 2 },
            Effect::BindSeat { name: 6, version: 4 },
        ]
    );
    assert_eq!(bind_globals(&Vec::new()), Vec::new());
}

#[test]
fn old_seat_cannot_be_used() {
    assert!(!can_use_global(&global(1, "wl_seat", 3)));
    assert!(can_use_global(&global(1, "wl_seat", 4)));
    assert!(can_use_global(&global(1, "wl_shm", 1)));
    let event = Event::Registry(RegistryEvent::Global(global(1, "wl_seat", 3)));
    assert!(!client().can_handle(&event));
}

#[test]
fn globals_that_appear_later() {
    let mut client = client();
    let seat = Event::Registry(RegistryEvent::Global(global(7, "wl_seat", 8)));
    assert!(client.can_handle(&seat));
    assert_eq!(client.event(&seat), vec![Effect::BindSeat { name: 7, version: 8 }]);
    let output = Event::Registry(RegistryEvent::Global(global(8, "wl_output", 4)));
    assert_eq!(client.event(&output), vec![Effect::BindOutput { name: 8, version: 2 }]);
    assert_eq!(client.event(&Event::OutputBound { output: 12 }), Vec::new());
    let scales: Vec<(u64, i32)> = client.outputs.iter().map(|o| (o.id, o.state.scale)).collect();
    assert_eq!(scales, vec![(10, 1), (11, 1), (12, 0)]);
    let other = Event::Registry(RegistryEvent::Global(global(9, "wl_shm", 1)));
    assert_eq!(client.event(&other), Vec::new());
    let gone = Event::Registry(RegistryEvent::GlobalRemove { name: 8 });
    assert_eq!(client.event(&gone), Vec::new());
    assert_eq!(client.outputs.len(), 3);
}

#[test]
fn singletons_are_bound_at_their_versions() {
    assert_eq!(
        singleton_binding(Singleton::Compositor),
        SingletonBinding {
            min_version: 1,
            max_version: wl_surface::EVT_PREFERRED_BUFFER_SCALE_SINCE,
            required: true,
        }
    );
    assert_eq!(singleton_binding(Singleton::Compositor).max_version, 6);
    for singleton in [Singleton::Shm, Singleton::WmBase] {
        let binding = singleton_binding(singleton);
        assert_eq!((binding.min_version, binding.max_version, binding.required), (1, 1, true));
    }
    for singleton in [
        Singleton::Viewporter,
        Singleton::FractionalScaleManager,
        Singleton::DecorationManager,
    ] {
        let binding = singleton_binding(singleton);
        assert_eq!((binding.min_version, binding.max_version, binding.required), (1, 1, false));
    }
}

#[test]
fn seats_offer_keyboards_and_pointers() {
    let mut client = client();
    let mut asks = |capabilities: Option<u32>| client.event(&Event::SeatCapabilities { capabilities });
    assert_eq!(asks(None), Vec::new());
    assert_eq!(asks(Some(0)), Vec::new());
    assert_eq!(asks(Some(wl_seat::Capability::Touch.bits())), Vec::new());
    assert_eq!(asks(Some(wl_seat::Capability::Pointer.bits())), vec![Effect::GetPointer]);
    assert_eq!(asks(Some(wl_seat::Capability::Keyboard.bits())), vec![Effect::GetKeyboard]);
    assert_eq!(asks(Some(1)), vec![Effect::GetPointer]);
    assert_eq!(asks(Some(2)), vec![Effect::GetKeyboard]);
    assert_eq!(asks(Some(7)), vec![Effect::GetKeyboard, Effect::GetPointer]);
}
