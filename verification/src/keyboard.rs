//! Keyboard focus, modifiers and keys.

use crate::client::ClientView;
use crate::client::WaylandClient;
use crate::effects::only;
use crate::effects::Effect;
use crate::events::ActiveModifiers;
use crate::events::KeyState;
use crate::events::KeyboardEvent;
use crate::events::KeymapFormat;
use crate::events::ObjectId;
use crate::input::KeyDownEvent;
use crate::input::KeyUpEvent;
use crate::input::Keystroke;
use crate::input::Modifiers;
use crate::input::ModifiersChangedEvent;
use crate::input::PlatformInput;
use crate::protocol::is_modifier_key;
use crate::protocol::spec_is_modifier_key;
use crate::windows::find_window;
use crate::windows::ids;
use crate::windows::Role;
use vstd::prelude::*;

verus! {

/// The difference between the evdev number of a key and its XKB keycode.
pub const MIN_KEYCODE: u32 = 8;

/// The modifiers after the keymap reported `active`. It reports nothing of the function
/// key.
pub open spec fn resolved_modifiers(modifiers: Modifiers, active: ActiveModifiers) -> Modifiers {
    Modifiers {
        shift: active.shift,
        alt: active.alt,
        control: active.control,
        platform: active.logo,
        function: modifiers.function,
    }
}

impl ClientView {
    /// Whether the client can work with a keyboard event.
    /// Only XKB keymaps are understood;
    /// a focused window gets no keys before there is a keymap;
    /// and key numbers, and the count of presses, are bounded.
    pub open spec fn accepts_keyboard(self, event: KeyboardEvent) -> bool {
        match event {
            KeyboardEvent::Keymap { format: Some(format) } => format is XkbV1,
            KeyboardEvent::Modifiers { .. } => self.keyboard_focused_window is Some
                ==> self.has_keymap,
            KeyboardEvent::Key { key, state: Some(_) } => self.keyboard_focused_window is Some
                ==> self.has_keymap && key + MIN_KEYCODE <= u32::MAX,
            KeyboardEvent::KeyResolved { key_state, keysym, .. } => {
                self.keyboard_focused_window is Some && key_state is Pressed
                    && !spec_is_modifier_key(keysym) ==> self.repeat.current_id < u64::MAX
            },
            _ => true,
        }
    }

    /// The keystroke of a key that changes now.
    pub open spec fn keystroke(self, keycode: u32) -> Keystroke {
        Keystroke { keycode, modifiers: self.modifiers }
    }

    pub open spec fn key_down(self, keycode: u32) -> PlatformInput {
        PlatformInput::KeyDown(
            KeyDownEvent { keystroke: self.keystroke(keycode), is_held: false },
        )
    }

    pub open spec fn key_up(self, keycode: u32) -> PlatformInput {
        PlatformInput::KeyUp(KeyUpEvent { keystroke: self.keystroke(keycode) })
    }

    /// What a key that changed does, and what it asks, while `window` has the focus.
    /// Modifier keys are left to the modifiers event.
    pub open spec fn key_step(
        self,
        window: ObjectId,
        keycode: u32,
        key_state: KeyState,
        keysym: u32,
    ) -> (ClientView, Seq<Effect>) {
        match key_state {
            KeyState::Pressed if !spec_is_modifier_key(keysym) => {
                let repeat = self.repeat.after_press(keysym);
                let input = self.key_down(keycode);
                (
                    ClientView { repeat, ..self },
                    seq![
                        Effect::ArmRepeat { timer: repeat.spec_timer(), input },
                        Effect::HandleInput { window, input },
                    ],
                )
            },
            KeyState::Released if !spec_is_modifier_key(keysym) => (
                ClientView { repeat: self.repeat.after_release(), ..self },
                seq![Effect::HandleInput { window, input: self.key_up(keycode) }],
            ),
            _ => (self, seq![]),
        }
    }

    /// What a keyboard event does, and what it asks.
    pub open spec fn keyboard_step(self, event: KeyboardEvent) -> (ClientView, Seq<Effect>) {
        match event {
            KeyboardEvent::RepeatInfo { rate, delay } => (
                ClientView { repeat: self.repeat.with_info(rate, delay), ..self },
                seq![],
            ),
            KeyboardEvent::Keymap { format } => (
                self,
                if format is Some {
                    seq![Effect::LoadKeymap]
                } else {
                    seq![]
                },
            ),
            KeyboardEvent::KeymapLoaded => (ClientView { has_keymap: true, ..self }, seq![]),
            KeyboardEvent::Enter { surface } => if self.has_surface(surface) {
                (
                    ClientView { keyboard_focused_window: Some(surface), ..self },
                    seq![Effect::SetFocused { surface, focused: true }],
                )
            } else {
                (ClientView { keyboard_focused_window: None, ..self }, seq![])
            },
            KeyboardEvent::Leave { surface } => (
                ClientView { keyboard_focused_window: None, ..self },
                if self.has_surface(surface) {
                    seq![Effect::SetFocused { surface, focused: false }]
                } else {
                    seq![]
                },
            ),
            KeyboardEvent::Modifiers { mods_depressed, mods_latched, mods_locked, group } => (
                self,
                if self.keyboard_focused_window is Some {
                    seq![
                        Effect::UpdateModifierMask {
                            mods_depressed,
                            mods_latched,
                            mods_locked,
                            depressed_layout: 0,
                            latched_layout: 0,
                            locked_layout: group,
                        },
                    ]
                } else {
                    seq![]
                },
            ),
            KeyboardEvent::ModifiersResolved { active } => match self.keyboard_focused_window {
                Some(window) => {
                    let modifiers = resolved_modifiers(self.modifiers, active);
                    (
                        ClientView { modifiers, ..self },
                        seq![
                            Effect::HandleInput {
                                window,
                                input: PlatformInput::ModifiersChanged(
                                    ModifiersChangedEvent { modifiers },
                                ),
                            },
                        ],
                    )
                },
                None => (self, seq![]),
            },
            KeyboardEvent::Key { key, state } => (
                self,
                match (state, self.keyboard_focused_window) {
                    (Some(key_state), Some(_)) => seq![
                        Effect::LookUpKeysym { keycode: (key + MIN_KEYCODE) as u32, key_state },
                    ],
                    _ => seq![],
                },
            ),
            KeyboardEvent::KeyResolved { keycode, key_state, keysym } => {
                match self.keyboard_focused_window {
                    Some(window) => self.key_step(window, keycode, key_state, keysym),
                    None => (self, seq![]),
                }
            },
            KeyboardEvent::Other => (self, seq![]),
        }
    }
}

impl WaylandClient {
    pub(crate) fn can_handle_keyboard(&self, event: KeyboardEvent) -> (accepted: bool)
        ensures
            accepted == self@.accepts_keyboard(event),
    {
        let focused: bool = self.keyboard_focused_window.is_some();
        match event {
            KeyboardEvent::Keymap { format: Some(format) } => match format {
                KeymapFormat::XkbV1 => true,
                _ => false,
            },
            KeyboardEvent::Modifiers { .. } => !focused || self.has_keymap,
            KeyboardEvent::Key { key, state: Some(_) } => !focused || (self.has_keymap && key
                <= u32::MAX - MIN_KEYCODE),
            KeyboardEvent::KeyResolved { key_state, keysym, .. } => match key_state {
                KeyState::Pressed => !focused || is_modifier_key(keysym) || self.repeat.current_id
                    < u64::MAX,
                _ => true,
            },
            _ => true,
        }
    }

    fn is_open(&self, surface: ObjectId) -> (open: bool)
        ensures
            open == self@.has_surface(surface),
    {
        proof {
            ids(self@.windows, Role::Surface).index_of_first_ensures(surface);
        }
        find_window(&self.windows, Role::Surface, surface).is_some()
    }

    fn key_changed(
        &mut self,
        window: ObjectId,
        keycode: u32,
        key_state: KeyState,
        keysym: u32,
    ) -> (effects: Vec<Effect>)
        requires
            key_state is Pressed && !spec_is_modifier_key(keysym) ==> old(self).repeat.current_id
                < u64::MAX,
        ensures
            final(self)@ == old(self)@.key_step(window, keycode, key_state, keysym).0,
            effects@ == old(self)@.key_step(window, keycode, key_state, keysym).1,
    {
        let mut effects: Vec<Effect> = Vec::new();
        let keystroke = Keystroke { keycode, modifiers: self.modifiers };
        match key_state {
            KeyState::Pressed => {
                if !is_modifier_key(keysym) {
                    let input = PlatformInput::KeyDown(KeyDownEvent { keystroke, is_held: false });
                    let timer = self.repeat.press(keysym);
                    effects.push(Effect::ArmRepeat { timer, input });
                    effects.push(Effect::HandleInput { window, input });
                }
            },
            KeyState::Released => {
                if !is_modifier_key(keysym) {
                    let input = PlatformInput::KeyUp(KeyUpEvent { keystroke });
                    self.repeat.release();
                    effects.push(Effect::HandleInput { window, input });
                }
            },
            KeyState::Other => {},
        }
        assert(effects@ =~= old(self)@.key_step(window, keycode, key_state, keysym).1);
        effects
    }

    fn keyboard_entered(&mut self, surface: ObjectId) -> (effects: Vec<Effect>)
        ensures
            final(self)@ == old(self)@.keyboard_step(KeyboardEvent::Enter { surface }).0,
            effects@ == old(self)@.keyboard_step(KeyboardEvent::Enter { surface }).1,
    {
        if self.is_open(surface) {
            self.keyboard_focused_window = Some(surface);
            only(Effect::SetFocused { surface, focused: true })
        } else {
            self.keyboard_focused_window = None;
            Vec::new()
        }
    }

    fn keyboard_left(&mut self, surface: ObjectId) -> (effects: Vec<Effect>)
        ensures
            final(self)@ == old(self)@.keyboard_step(KeyboardEvent::Leave { surface }).0,
            effects@ == old(self)@.keyboard_step(KeyboardEvent::Leave { surface }).1,
    {
        let open: bool = self.is_open(surface);
        self.keyboard_focused_window = None;
        if open {
            only(Effect::SetFocused { surface, focused: false })
        } else {
            Vec::new()
        }
    }

    fn modifiers_resolved(&mut self, active: ActiveModifiers) -> (effects: Vec<Effect>)
        ensures
            final(self)@ == old(self)@.keyboard_step(
                KeyboardEvent::ModifiersResolved { active },
            ).0,
            effects@ == old(self)@.keyboard_step(KeyboardEvent::ModifiersResolved { active }).1,
    {
        if let Some(window) = self.keyboard_focused_window {
            self.modifiers.shift = active.shift;
            self.modifiers.alt = active.alt;
            self.modifiers.control = active.control;
            self.modifiers.platform = active.logo;
            let modifiers = self.modifiers;
            let input = PlatformInput::ModifiersChanged(ModifiersChangedEvent { modifiers });
            only(Effect::HandleInput { window, input })
        } else {
            Vec::new()
        }
    }

    pub(crate) fn keyboard_event(&mut self, event: KeyboardEvent) -> (effects: Vec<Effect>)
        requires
            old(self)@.accepts_keyboard(event),
        ensures
            final(self)@ == old(self)@.keyboard_step(event).0,
            effects@ == old(self)@.keyboard_step(event).1,
    {
        match event {
            KeyboardEvent::RepeatInfo { rate, delay } => {
                self.repeat.set_info(rate, delay);
                Vec::new()
            },
            KeyboardEvent::Keymap { format } => if format.is_some() {
                only(Effect::LoadKeymap)
            } else {
                Vec::new()
            },
            KeyboardEvent::KeymapLoaded => {
                self.has_keymap = true;
                Vec::new()
            },
            KeyboardEvent::Enter { surface } => self.keyboard_entered(surface),
            KeyboardEvent::Leave { surface } => self.keyboard_left(surface),
            KeyboardEvent::Modifiers { mods_depressed, mods_latched, mods_locked, group } =>
            if self.keyboard_focused_window.is_some() {
                only(
                    Effect::UpdateModifierMask {
                        mods_depressed,
                        mods_latched,
                        mods_locked,
                        depressed_layout: 0,
                        latched_layout: 0,
                        locked_layout: group,
                    },
                )
            } else {
                Vec::new()
            },
            KeyboardEvent::ModifiersResolved { active } => self.modifiers_resolved(active),
            KeyboardEvent::Key { key, state } => match (state, self.keyboard_focused_window) {
                (Some(key_state), Some(_)) => only(
                    Effect::LookUpKeysym { keycode: key + MIN_KEYCODE, key_state },
                ),
                _ => Vec::new(),
            },
            KeyboardEvent::KeyResolved { keycode, key_state, keysym } =>
            match self.keyboard_focused_window {
                Some(window) => self.key_changed(window, keycode, key_state, keysym),
                None => Vec::new(),
            },
            KeyboardEvent::Other => Vec::new(),
        }
    }
}

} // verus!
