//! Frames, buffer scales and outputs.

use crate::client::ClientView;
use crate::client::WaylandClient;
use crate::effects::Effect;
use crate::events::ObjectId;
use crate::events::OutputEvent;
use crate::events::SurfaceEvent;
use crate::geometry::Scale;
use crate::protocol::preferred_buffer_scale_since;
use crate::protocol::set_buffer_scale_since;
use crate::protocol::spec_preferred_buffer_scale_since;
use crate::protocol::spec_set_buffer_scale_since;
use crate::windows::entered_scale;
use crate::windows::find_output;
use crate::windows::find_window;
use crate::windows::first_window;
use crate::windows::for_each_window;
use crate::windows::largest_scale;
use crate::windows::output_ids;
use crate::windows::Output;
use crate::windows::OutputState;
use crate::windows::Role;
use crate::windows::WindowView;
use vstd::prelude::*;

verus! {

broadcast use vstd::std_specs::hash::group_hash_axioms;

/// What a frame callback asks of one window: the next callback, a new picture, and to show
/// it.
pub open spec fn frame_effects(surface: ObjectId) -> Seq<Effect> {
    seq![Effect::Frame { surface }, Effect::Update { surface }, Effect::Commit { surface }]
}

/// What a whole scale factor asks of a window.
pub open spec fn scale_effects(surface: ObjectId, factor: i32) -> Seq<Effect> {
    seq![
        Effect::Rescale { surface, scale: Scale::spec_whole(factor) },
        Effect::SetBufferScale { surface, factor },
    ]
}

fn scale_window(surface: ObjectId, factor: i32) -> (effects: Vec<Effect>)
    ensures
        effects@ == scale_effects(surface, factor),
{
    let mut effects: Vec<Effect> = Vec::new();
    effects.push(Effect::Rescale { surface, scale: Scale::whole(factor) });
    effects.push(Effect::SetBufferScale { surface, factor });
    assert(effects@ =~= scale_effects(surface, factor));
    effects
}

impl ClientView {
    /// Whether buffer scales are set from surface events: not where the compositor sends
    /// fractional scales, and not where it cannot be told a buffer scale.
    pub open spec fn uses_buffer_scale(self) -> bool {
        !self.has_fractional_scale_manager && self.compositor_version
            >= spec_set_buffer_scale_since()
    }

    /// The client after the window at `index` was found to be on `outputs`.
    pub open spec fn with_window_outputs(self, index: int, outputs: Set<ObjectId>) -> ClientView {
        ClientView {
            windows: self.windows.update(
                index,
                WindowView { outputs, ..self.windows[index] },
            ),
            ..self
        }
    }

    /// The outputs of the window at `index` once its surface entered `output`; an output
    /// that is not bound is not remembered.
    pub open spec fn outputs_after_enter(self, index: int, output: ObjectId) -> Set<ObjectId> {
        if self.has_output(output) {
            self.windows[index].outputs.insert(output)
        } else {
            self.windows[index].outputs
        }
    }

    /// The outputs of the window at `index` once its surface left `output`.
    pub open spec fn outputs_after_leave(self, index: int, output: ObjectId) -> Set<ObjectId> {
        self.windows[index].outputs.remove(output)
    }

    /// What a surface event does, and what it asks. Entering and leaving outputs sets the
    /// scale only where the surface is too old to be told its preferred scale.
    pub open spec fn surface_step(
        self,
        surface: ObjectId,
        version: u32,
        event: SurfaceEvent,
    ) -> (ClientView, Seq<Effect>) {
        match first_window(self.windows, Role::Surface, surface) {
            Some(index) if self.uses_buffer_scale() => match event {
                SurfaceEvent::Enter { output } if version < spec_preferred_buffer_scale_since() => {
                    let entered = self.outputs_after_enter(index, output);
                    (
                        self.with_window_outputs(index, entered),
                        scale_effects(surface, entered_scale(self.outputs, entered)),
                    )
                },
                SurfaceEvent::Leave { output } if version < spec_preferred_buffer_scale_since() => {
                    let entered = self.outputs_after_leave(index, output);
                    (
                        self.with_window_outputs(index, entered),
                        scale_effects(surface, entered_scale(self.outputs, entered)),
                    )
                },
                SurfaceEvent::PreferredBufferScale { factor } => (
                    self,
                    scale_effects(surface, factor),
                ),
                _ => (self, seq![]),
            },
            _ => (self, seq![]),
        }
    }

    /// The client after `output` said its scale.
    pub open spec fn output_step(self, output: ObjectId, event: OutputEvent) -> ClientView {
        match event {
            OutputEvent::Scale { factor } => ClientView {
                outputs: self.outputs.update(
                    output_ids(self.outputs).index_of_first(output)->0,
                    Output { id: output, state: OutputState { scale: factor } },
                ),
                ..self
            },
            OutputEvent::Other => self,
        }
    }

    /// What a fractional scale asks of the window that it is for.
    pub open spec fn preferred_scale_effects(self, xdg_surface: ObjectId, scale: u32) -> Seq<
        Effect,
    > {
        match first_window(self.windows, Role::XdgSurface, xdg_surface) {
            Some(index) => seq![
                Effect::Rescale {
                    surface: self.windows[index].surface,
                    scale: Scale::spec_fractional(scale),
                },
            ],
            None => seq![],
        }
    }
}

impl WaylandClient {
    pub(crate) fn frame_done(&self, surface: ObjectId) -> (effects: Vec<Effect>)
        ensures
            effects@ == for_each_window(self@.windows, surface, frame_effects(surface)),
    {
        let mut effects: Vec<Effect> = Vec::new();
        let mut i: usize = 0;
        while i < self.windows.len()
            invariant
                i <= self.windows.len(),
                effects@ == for_each_window(
                    self@.windows.take(i as int),
                    surface,
                    frame_effects(surface),
                ),
            decreases self.windows.len() - i,
        {
            let ghost before = effects@;
            if self.windows[i].surface == surface {
                effects.push(Effect::Frame { surface });
                effects.push(Effect::Update { surface });
                effects.push(Effect::Commit { surface });
                assert(effects@ =~= before + frame_effects(surface));
            }
            assert(self@.windows.take(i + 1).drop_last() =~= self@.windows.take(i as int));
            assert(self@.windows.take(i + 1).last() == self.windows[i as int]@);
            i = i + 1;
        }
        assert(self@.windows.take(i as int) =~= self@.windows);
        effects
    }

    pub(crate) fn surface_event(
        &mut self,
        surface: ObjectId,
        version: u32,
        event: SurfaceEvent,
    ) -> (effects: Vec<Effect>)
        ensures
            final(self)@ == old(self)@.surface_step(surface, version, event).0,
            effects@ == old(self)@.surface_step(surface, version, event).1,
    {
        if self.has_fractional_scale_manager || self.compositor_version < set_buffer_scale_since() {
            return Vec::new();
        }
        let index: usize = match find_window(&self.windows, Role::Surface, surface) {
            Some(index) => index,
            None => {
                return Vec::new();
            },
        };
        match event {
            SurfaceEvent::Enter { output } => {
                if version >= preferred_buffer_scale_since() {
                    return Vec::new();
                }
                let known: bool = find_output(&self.outputs, output).is_some();
                proof {
                    output_ids(self.outputs@).index_of_first_ensures(output);
                }
                if known {
                    self.windows[index].outputs.insert(output);
                }
                let ghost entered = old(self)@.outputs_after_enter(index as int, output);
                assert(self.windows[index as int].outputs@ =~= entered);
                assert(self@.windows =~= old(self)@.with_window_outputs(
                    index as int,
                    entered,
                ).windows);
                let scale: i32 = largest_scale(&self.outputs, &self.windows[index].outputs);
                scale_window(surface, scale)
            },
            SurfaceEvent::Leave { output } => {
                if version >= preferred_buffer_scale_since() {
                    return Vec::new();
                }
                self.windows[index].outputs.remove(&output);
                let ghost entered = old(self)@.outputs_after_leave(index as int, output);
                assert(self.windows[index as int].outputs@ =~= entered);
                assert(self@.windows =~= old(self)@.with_window_outputs(
                    index as int,
                    entered,
                ).windows);
                let scale: i32 = largest_scale(&self.outputs, &self.windows[index].outputs);
                scale_window(surface, scale)
            },
            SurfaceEvent::PreferredBufferScale { factor } => scale_window(surface, factor),
            SurfaceEvent::Other => Vec::new(),
        }
    }

    pub(crate) fn output_event(&mut self, output: ObjectId, event: OutputEvent)
        requires
            old(self)@.has_output(output),
        ensures
            final(self)@ == old(self)@.output_step(output, event),
    {
        if let OutputEvent::Scale { factor } = event {
            proof {
                output_ids(self.outputs@).index_of_first_ensures(output);
            }
            if let Some(index) = find_output(&self.outputs, output) {
                self.outputs.set(index, Output { id: output, state: OutputState { scale: factor } });
            }
        }
    }

    pub(crate) fn preferred_scale(&self, xdg_surface: ObjectId, scale: u32) -> (effects: Vec<Effect>)
        ensures
            effects@ == self@.preferred_scale_effects(xdg_surface, scale),
    {
        let mut effects: Vec<Effect> = Vec::new();
        if let Some(index) = find_window(&self.windows, Role::XdgSurface, xdg_surface) {
            let surface: ObjectId = self.windows[index].surface;
            effects.push(Effect::Rescale { surface, scale: Scale::fractional(scale) });
        }
        assert(effects@ =~= self@.preferred_scale_effects(xdg_surface, scale));
        effects
    }
}

} // verus!
