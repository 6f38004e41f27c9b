//! Which globals the client binds, and at which versions.

use crate::client::ClientView;
use crate::client::WaylandClient;
use crate::effects::Effect;
use crate::events::Global;
use crate::events::ObjectId;
use crate::events::RegistryEvent;
use crate::protocol::axis_value120_since;
use crate::protocol::capabilities_contain;
use crate::protocol::keyboard_capability;
use crate::protocol::pointer_capability;
use crate::protocol::preferred_buffer_scale_since;
use crate::protocol::same_text;
use crate::protocol::spec_axis_value120_since;
use crate::protocol::spec_keyboard_capability;
use crate::protocol::spec_pointer_capability;
use crate::protocol::spec_preferred_buffer_scale_since;
use crate::windows::Output;
use crate::windows::OutputState;
use vstd::prelude::*;

verus! {

/// The lowest version of `wl_seat` that the client works with.
pub const WL_SEAT_MIN_VERSION: u32 = 4;

/// The version at which a `wl_output` is bound.
pub const WL_OUTPUT_VERSION: u32 = 2;

/// The version at which a seat is bound that is offered at `version`.
pub open spec fn spec_wl_seat_version(version: u32) -> u32 {
    if version >= spec_axis_value120_since() {
        spec_axis_value120_since()
    } else {
        WL_SEAT_MIN_VERSION
    }
}

/// The version at which to bind a seat that is offered at `version`: the one that brings
/// high-resolution scrolling where it is offered, else the lowest that will do.
pub fn wl_seat_version(version: u32) -> (bound: u32)
    requires
        version >= WL_SEAT_MIN_VERSION,
    ensures
        bound == spec_wl_seat_version(version),
        WL_SEAT_MIN_VERSION <= bound <= version,
{
    let since: u32 = axis_value120_since();
    if version >= since {
        since
    } else {
        WL_SEAT_MIN_VERSION
    }
}

/// Whether the client can work with a global: a seat must not be too old.
pub open spec fn accepts_global(global: Global) -> bool {
    global.interface@ == "wl_seat"@ ==> global.version >= WL_SEAT_MIN_VERSION
}

/// What a global asks of the client: to bind seats and outputs, and to leave all others.
pub open spec fn global_effects(global: Global) -> Seq<Effect> {
    if global.interface@ == "wl_seat"@ {
        seq![Effect::BindSeat { name: global.name, version: spec_wl_seat_version(global.version) }]
    } else if global.interface@ == "wl_output"@ {
        seq![Effect::BindOutput { name: global.name, version: WL_OUTPUT_VERSION }]
    } else {
        seq![]
    }
}

/// What a list of globals asks of the client, in the order of the list.
pub open spec fn globals_effects(globals: Seq<Global>) -> Seq<Effect>
    decreases globals.len(),
{
    if globals.len() == 0 {
        seq![]
    } else {
        globals_effects(globals.drop_last()) + global_effects(globals.last())
    }
}

/// Tells whether the client can work with `global`.
pub fn can_use_global(global: &Global) -> (usable: bool)
    ensures
        usable == accepts_global(*global),
{
    !same_text(global.interface.as_str(), "wl_seat") || global.version >= WL_SEAT_MIN_VERSION
}

fn bind_global(global: &Global, effects: &mut Vec<Effect>)
    requires
        accepts_global(*global),
    ensures
        final(effects)@ == old(effects)@ + global_effects(*global),
{
    if same_text(global.interface.as_str(), "wl_seat") {
        effects.push(
            Effect::BindSeat { name: global.name, version: wl_seat_version(global.version) },
        );
    } else if same_text(global.interface.as_str(), "wl_output") {
        effects.push(Effect::BindOutput { name: global.name, version: WL_OUTPUT_VERSION });
    }
    assert(effects@ =~= old(effects)@ + global_effects(*global));
}

/// What to bind of the globals that are there when the client connects.
pub fn bind_globals(globals: &Vec<Global>) -> (effects: Vec<Effect>)
    requires
        forall|i: int| 0 <= i < globals.len() ==> accepts_global(#[trigger] globals[i]),
    ensures
        effects@ == globals_effects(globals@),
{
    let mut effects: Vec<Effect> = Vec::new();
    let mut i: usize = 0;
    while i < globals.len()
        invariant
            i <= globals.len(),
            forall|j: int| 0 <= j < globals.len() ==> accepts_global(#[trigger] globals[j]),
            effects@ == globals_effects(globals@.take(i as int)),
        decreases globals.len() - i,
    {
        bind_global(&globals[i], &mut effects);
        assert(globals@.take(i + 1).drop_last() =~= globals@.take(i as int));
        i = i + 1;
    }
    assert(globals@.take(i as int) =~= globals@);
    effects
}

/// A global of which the client needs, or can use, one instance.
#[derive(Clone, Copy, Debug, PartialEq, Eq, Structural)]
pub enum Singleton {
    Compositor,
    Shm,
    WmBase,
    Viewporter,
    FractionalScaleManager,
    DecorationManager,
}

/// How a singleton is bound.
#[derive(Clone, Copy, Debug, PartialEq, Eq, Structural)]
pub struct SingletonBinding {
    pub min_version: u32,
    pub max_version: u32,
    /// Whether the client cannot do without it.
    pub required: bool,
}

/// The compositor is bound up to the version that reports preferred buffer scales, all
/// others at version one. There is no client without a compositor, shared memory and a
/// shell.
pub open spec fn spec_singleton_binding(singleton: Singleton) -> SingletonBinding {
    SingletonBinding {
        min_version: 1,
        max_version: if singleton is Compositor {
            spec_preferred_buffer_scale_since()
        } else {
            1
        },
        required: singleton is Compositor || singleton is Shm || singleton is WmBase,
    }
}

/// How to bind `singleton`.
pub fn singleton_binding(singleton: Singleton) -> (binding: SingletonBinding)
    ensures
        binding == spec_singleton_binding(singleton),
{
    match singleton {
        Singleton::Compositor => SingletonBinding {
            min_version: 1,
            max_version: preferred_buffer_scale_since(),
            required: true,
        },
        Singleton::Shm | Singleton::WmBase => SingletonBinding {
            min_version: 1,
            max_version: 1,
            required: true,
        },
        Singleton::Viewporter
        | Singleton::FractionalScaleManager
        | Singleton::DecorationManager => SingletonBinding {
            min_version: 1,
            max_version: 1,
            required: false,
        },
    }
}

/// What a seat's capabilities ask of the client: to get its keyboard and its pointer where
/// it has them.
pub open spec fn seat_effects(capabilities: Option<u32>) -> Seq<Effect> {
    match capabilities {
        Some(bits) => {
            let keyboard = if bits & spec_keyboard_capability() == spec_keyboard_capability() {
                seq![Effect::GetKeyboard]
            } else {
                seq![]
            };
            let pointer = if bits & spec_pointer_capability() == spec_pointer_capability() {
                seq![Effect::GetPointer]
            } else {
                seq![]
            };
            keyboard + pointer
        },
        None => seq![],
    }
}

pub(crate) fn seat_event(capabilities: Option<u32>) -> (effects: Vec<Effect>)
    ensures
        effects@ == seat_effects(capabilities),
{
    let mut effects: Vec<Effect> = Vec::new();
    if let Some(bits) = capabilities {
        if capabilities_contain(bits, keyboard_capability()) {
            effects.push(Effect::GetKeyboard);
        }
        if capabilities_contain(bits, pointer_capability()) {
            effects.push(Effect::GetPointer);
        }
    }
    assert(effects@ =~= seat_effects(capabilities));
    effects
}

/// What a registry event asks of the client. That a global is gone asks nothing.
pub open spec fn registry_effects(event: RegistryEvent) -> Seq<Effect> {
    match event {
        RegistryEvent::Global(global) => global_effects(global),
        RegistryEvent::GlobalRemove { .. } => seq![],
    }
}

pub(crate) fn registry_event(event: &RegistryEvent) -> (effects: Vec<Effect>)
    requires
        event matches RegistryEvent::Global(global) ==> accepts_global(*global),
    ensures
        effects@ == registry_effects(*event),
{
    let mut effects: Vec<Effect> = Vec::new();
    match event {
        RegistryEvent::Global(global) => {
            bind_global(global, &mut effects);
        },
        RegistryEvent::GlobalRemove { .. } => {},
    }
    assert(effects@ =~= registry_effects(*event));
    effects
}

impl ClientView {
    /// The client with one more output, of which nothing is known yet.
    pub open spec fn with_output(self, output: ObjectId) -> ClientView {
        ClientView {
            outputs: self.outputs.push(Output { id: output, state: OutputState { scale: 0 } }),
            ..self
        }
    }
}

impl WaylandClient {
    pub(crate) fn output_bound(&mut self, output: ObjectId)
        ensures
            final(self)@ == old(self)@.with_output(output),
    {
        self.outputs.push(Output { id: output, state: OutputState { scale: 0 } });
    }
}

/// A higher offer is never bound at a lower version.
pub proof fn lemma_seat_version_is_monotone(a: u32, b: u32)
    requires
        WL_SEAT_MIN_VERSION <= a <= b,
    ensures
        spec_wl_seat_version(a) <= spec_wl_seat_version(b),
{
}

/// A seat is bound at version eight where it is offered at eight or above, and at version
/// four everywhere below.
pub proof fn lemma_seat_version_is_eight_or_four(version: u32)
    ensures
        version >= 8 ==> spec_wl_seat_version(version) == 8,
        version < 8 ==> spec_wl_seat_version(version) == 4,
{
}

/// Every singleton is bound at version one, but the compositor at up to six; the client
/// cannot do without the compositor, the shared memory and the shell, and can without the
/// rest.
pub proof fn lemma_singletons_that_are_needed(singleton: Singleton)
    ensures
        spec_singleton_binding(singleton).min_version == 1,
        spec_singleton_binding(singleton).max_version == if singleton is Compositor {
            6int
        } else {
            1
        },
        spec_singleton_binding(singleton).required <==> !(singleton is Viewporter
            || singleton is FractionalScaleManager || singleton is DecorationManager),
{
}

} // verus!
