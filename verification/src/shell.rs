//! Configuring, decorating and closing windows.

use crate::client::ClientView;
use crate::client::WaylandClient;
use crate::effects::Effect;
use crate::effects::WaylandDecorationState;
use crate::events::DecorationMode;
use crate::events::ObjectId;
use crate::events::ToplevelEvent;
use crate::numbers::reinterpret;
use crate::numbers::reinterpreted;
use crate::protocol::fullscreen_state;
use crate::protocol::spec_fullscreen_state;
use crate::windows::find_window;
use crate::windows::first_window;
use crate::windows::window_views;
use crate::windows::Role;
use crate::windows::Window;
use crate::windows::WindowView;
use vstd::prelude::*;

verus! {

/// The size that a configured dimension stands for: zero leaves the choice to the window.
pub open spec fn spec_dimension(dimension: i32) -> Option<u32> {
    if dimension == 0 {
        None
    } else {
        Some(reinterpreted(dimension) as u32)
    }
}

fn dimension_of(dimension: i32) -> (result: Option<u32>)
    ensures
        result == spec_dimension(dimension),
{
    if dimension == 0 {
        None
    } else {
        Some(reinterpret(dimension))
    }
}

fn holds_byte(bytes: &Vec<u8>, byte: u8) -> (found: bool)
    ensures
        found == bytes@.contains(byte),
{
    let mut i: usize = 0;
    while i < bytes.len()
        invariant
            i <= bytes.len(),
            forall|j: int| 0 <= j < i ==> bytes@[j] != byte,
        decreases bytes.len() - i,
    {
        if bytes[i] == byte {
            assert(bytes@[i as int] == byte);
            return true;
        }
        i = i + 1;
    }
    false
}

/// The windows that stay open when the windows of `toplevel` close.
pub open spec fn without_toplevel(windows: Seq<WindowView>, toplevel: ObjectId) -> Seq<WindowView> {
    windows.filter(|window: WindowView| window.toplevel != toplevel)
}

/// One request to destroy the toplevel for each window of it.
pub open spec fn destroy_effects(windows: Seq<WindowView>, toplevel: ObjectId) -> Seq<Effect> {
    windows.filter(|window: WindowView| window.toplevel == toplevel).map_values(
        |window: WindowView| Effect::DestroyToplevel { toplevel },
    )
}

impl ClientView {
    /// What configuring an xdg surface asks: to acknowledge it in any case, and to show a
    /// new picture of the window.
    pub open spec fn xdg_surface_effects(self, xdg_surface: ObjectId, serial: u32) -> Seq<Effect> {
        let ack = seq![Effect::AckConfigure { xdg_surface, serial }];
        match first_window(self.windows, Role::XdgSurface, xdg_surface) {
            Some(index) => {
                let surface = self.windows[index].surface;
                ack + seq![Effect::Update { surface }, Effect::Commit { surface }]
            },
            None => ack,
        }
    }

    /// What configuring a toplevel asks of its window.
    pub open spec fn configure_effects(
        self,
        toplevel: ObjectId,
        width: i32,
        height: i32,
        states: Seq<u8>,
    ) -> Seq<Effect> {
        match first_window(self.windows, Role::Toplevel, toplevel) {
            Some(index) => {
                let surface = self.windows[index].surface;
                seq![
                    Effect::Resize {
                        surface,
                        width: spec_dimension(width),
                        height: spec_dimension(height),
                    },
                    Effect::SetFullscreen {
                        surface,
                        fullscreen: states.contains(spec_fullscreen_state()),
                    },
                    Effect::Commit { surface },
                ]
            },
            None => seq![],
        }
    }

    /// What a toplevel event does, and what it asks.
    pub open spec fn toplevel_step(self, toplevel: ObjectId, event: ToplevelEvent) -> (
        ClientView,
        Seq<Effect>,
    ) {
        match event {
            ToplevelEvent::Configure { width, height, states } => (
                self,
                self.configure_effects(toplevel, width, height, states@),
            ),
            ToplevelEvent::Close => (
                ClientView { windows: without_toplevel(self.windows, toplevel), ..self },
                destroy_effects(self.windows, toplevel),
            ),
            ToplevelEvent::Other => (self, seq![]),
        }
    }

    /// What a decoration mode asks of the window that it is for. A mode of another name, or
    /// of none, is warned of.
    pub open spec fn decoration_effects(
        self,
        xdg_surface: ObjectId,
        mode: Result<DecorationMode, u32>,
    ) -> Seq<Effect> {
        match first_window(self.windows, Role::XdgSurface, xdg_surface) {
            Some(index) => {
                let surface = self.windows[index].surface;
                match mode {
                    Ok(DecorationMode::ServerSide) => seq![
                        Effect::SetDecorations {
                            surface,
                            decorations: WaylandDecorationState::Server,
                        },
                    ],
                    Ok(DecorationMode::ClientSide) => seq![
                        Effect::SetDecorations {
                            surface,
                            decorations: WaylandDecorationState::Client,
                        },
                    ],
                    Ok(DecorationMode::Other) => seq![Effect::WarnDecorationMode { number: None }],
                    Err(number) => seq![Effect::WarnDecorationMode { number: Some(number) }],
                }
            },
            None => seq![],
        }
    }
}

impl WaylandClient {
    pub(crate) fn xdg_surface_configure(&self, xdg_surface: ObjectId, serial: u32) -> (effects: Vec<
        Effect,
    >)
        ensures
            effects@ == self@.xdg_surface_effects(xdg_surface, serial),
    {
        let mut effects: Vec<Effect> = Vec::new();
        effects.push(Effect::AckConfigure { xdg_surface, serial });
        if let Some(index) = find_window(&self.windows, Role::XdgSurface, xdg_surface) {
            let surface: ObjectId = self.windows[index].surface;
            effects.push(Effect::Update { surface });
            effects.push(Effect::Commit { surface });
        }
        assert(effects@ =~= self@.xdg_surface_effects(xdg_surface, serial));
        effects
    }

    fn toplevel_configure(&self, toplevel: ObjectId, width: i32, height: i32, states: &Vec<u8>) -> (
    effects: Vec<Effect>)
        ensures
            effects@ == self@.configure_effects(toplevel, width, height, states@),
    {
        let mut effects: Vec<Effect> = Vec::new();
        let width: Option<u32> = dimension_of(width);
        let height: Option<u32> = dimension_of(height);
        let fullscreen: bool = holds_byte(states, fullscreen_state());
        if let Some(index) = find_window(&self.windows, Role::Toplevel, toplevel) {
            let surface: ObjectId = self.windows[index].surface;
            effects.push(Effect::Resize { surface, width, height });
            effects.push(Effect::SetFullscreen { surface, fullscreen });
            effects.push(Effect::Commit { surface });
        }
        effects
    }

    fn toplevel_close(&mut self, toplevel: ObjectId) -> (effects: Vec<Effect>)
        ensures
            final(self)@ == (ClientView {
                windows: without_toplevel(old(self)@.windows, toplevel),
                ..old(self)@
            }),
            effects@ == destroy_effects(old(self)@.windows, toplevel),
    {
        let ghost before = self@.windows;
        let ghost stays = |window: WindowView| window.toplevel != toplevel;
        let ghost goes = |window: WindowView| window.toplevel == toplevel;
        let ghost destroy = |window: WindowView| Effect::DestroyToplevel { toplevel };
        let mut windows: Vec<Window> = Vec::new();
        std::mem::swap(&mut windows, &mut self.windows);
        let mut effects: Vec<Effect> = Vec::new();
        let mut i: usize = 0;
        let ghost mut n: int = 0;
        assert(before.take(0).filter(stays) + before.skip(0) =~= before) by {
            reveal(Seq::filter);
        }
        assert(before.take(0).filter(goes).map_values(destroy) =~= seq![]) by {
            reveal(Seq::filter);
        }
        while i < windows.len()
            invariant
                0 <= n <= before.len(),
                window_views(windows@) == before.take(n).filter(stays) + before.skip(n),
                i == before.take(n).filter(stays).len(),
                effects@ == before.take(n).filter(goes).map_values(destroy),
                stays == (|window: WindowView| window.toplevel != toplevel),
                goes == (|window: WindowView| window.toplevel == toplevel),
                destroy == (|window: WindowView| Effect::DestroyToplevel { toplevel }),
            decreases before.len() - n,
        {
            let ghost views = window_views(windows@);
            proof {
                assert(views.len() == windows.len());
                assert(views[i as int] == before[n]);
                assert(windows[i as int]@ == before[n]);
                assert(before.take(n + 1).drop_last() =~= before.take(n));
                reveal(Seq::filter);
            }
            if windows[i].toplevel == toplevel {
                windows.remove(i);
                effects.push(Effect::DestroyToplevel { toplevel });
                assert(window_views(windows@) =~= views.remove(i as int));
                assert(effects@ =~= before.take(n + 1).filter(goes).map_values(destroy));
            } else {
                i = i + 1;
            }
            assert(window_views(windows@) =~= before.take(n + 1).filter(stays) + before.skip(
                n + 1,
            ));
            proof {
                n = n + 1;
            }
        }
        assert(window_views(windows@).len() == windows.len());
        assert(n == before.len());
        assert(before.take(n) =~= before);
        assert(window_views(windows@) =~= before.filter(stays));
        self.windows = windows;
        effects
    }

    pub(crate) fn toplevel_event(&mut self, toplevel: ObjectId, event: &ToplevelEvent) -> (effects:
        Vec<Effect>)
        ensures
            final(self)@ == old(self)@.toplevel_step(toplevel, *event).0,
            effects@ == old(self)@.toplevel_step(toplevel, *event).1,
    {
        match event {
            ToplevelEvent::Configure { width, height, states } => self.toplevel_configure(
                toplevel,
                *width,
                *height,
                states,
            ),
            ToplevelEvent::Close => self.toplevel_close(toplevel),
            ToplevelEvent::Other => Vec::new(),
        }
    }

    pub(crate) fn decoration_configure(
        &self,
        xdg_surface: ObjectId,
        mode: Result<DecorationMode, u32>,
    ) -> (effects: Vec<Effect>)
        ensures
            effects@ == self@.decoration_effects(xdg_surface, mode),
    {
        let mut effects: Vec<Effect> = Vec::new();
        if let Some(index) = find_window(&self.windows, Role::XdgSurface, xdg_surface) {
            let surface: ObjectId = self.windows[index].surface;
            match mode {
                Ok(DecorationMode::ServerSide) => {
                    effects.push(
                        Effect::SetDecorations {
                            surface,
                            decorations: WaylandDecorationState::Server,
                        },
                    );
                },
                Ok(DecorationMode::ClientSide) => {
                    effects.push(
                        Effect::SetDecorations {
                            surface,
                            decorations: WaylandDecorationState::Client,
                        },
                    );
                },
                Ok(DecorationMode::Other) => {
                    effects.push(Effect::WarnDecorationMode { number: None });
                },
                Err(number) => {
                    effects.push(Effect::WarnDecorationMode { number: Some(number) });
                },
            }
        }
        assert(effects@ =~= self@.decoration_effects(xdg_surface, mode));
        effects
    }
}

} // verus!
