//! The tables of windows and outputs.

use crate::effects::Effect;
use crate::events::ObjectId;
use std::collections::HashSet;
use vstd::prelude::*;

verus! {

broadcast use vstd::std_specs::hash::group_hash_axioms;

/// The three protocol objects of a window.
#[derive(Clone, Copy, Debug, PartialEq, Eq, Structural)]
pub enum Role {
    XdgSurface,
    Surface,
    Toplevel,
}

/// A window that is open.
#[derive(Debug)]
pub struct Window {
    pub xdg_surface: ObjectId,
    pub surface: ObjectId,
    pub toplevel: ObjectId,
    /// The outputs that the window's surface is on.
    pub outputs: HashSet<ObjectId>,
}

/// The model of a window.
#[verifier::ext_equal]
pub struct WindowView {
    pub xdg_surface: ObjectId,
    pub surface: ObjectId,
    pub toplevel: ObjectId,
    pub outputs: Set<ObjectId>,
}

impl View for Window {
    type V = WindowView;

    open spec fn view(&self) -> WindowView {
        WindowView {
            xdg_surface: self.xdg_surface,
            surface: self.surface,
            toplevel: self.toplevel,
            outputs: self.outputs@,
        }
    }
}

impl WindowView {
    /// The name of the window's object in a role.
    pub open spec fn id(self, role: Role) -> ObjectId {
        match role {
            Role::XdgSurface => self.xdg_surface,
            Role::Surface => self.surface,
            Role::Toplevel => self.toplevel,
        }
    }
}

/// The models of the windows in a table.
pub open spec fn window_views(windows: Seq<Window>) -> Seq<WindowView> {
    windows.map_values(|window: Window| window@)
}

/// The names of the windows' objects in a role.
pub open spec fn ids(windows: Seq<WindowView>, role: Role) -> Seq<ObjectId> {
    windows.map_values(|window: WindowView| window.id(role))
}

/// The first window whose object in `role` is `id`.
pub open spec fn first_window(windows: Seq<WindowView>, role: Role, id: ObjectId) -> Option<int> {
    ids(windows, role).index_of_first(id)
}

/// `effects`, once for each window of the surface `surface`.
pub open spec fn for_each_window(
    windows: Seq<WindowView>,
    surface: ObjectId,
    effects: Seq<Effect>,
) -> Seq<Effect>
    decreases windows.len(),
{
    if windows.len() == 0 {
        Seq::empty()
    } else if windows.last().surface == surface {
        for_each_window(windows.drop_last(), surface, effects) + effects
    } else {
        for_each_window(windows.drop_last(), surface, effects)
    }
}

/// What is known of an output.
#[derive(Clone, Copy, Debug, PartialEq, Eq, Structural)]
pub struct OutputState {
    pub scale: i32,
}

/// An output that is bound.
#[derive(Clone, Copy, Debug, PartialEq, Eq, Structural)]
pub struct Output {
    pub id: ObjectId,
    pub state: OutputState,
}

/// The names of the outputs in a table.
pub open spec fn output_ids(outputs: Seq<Output>) -> Seq<ObjectId> {
    outputs.map_values(|output: Output| output.id)
}

/// The largest scale of the outputs that `entered` holds, but at least one.
pub open spec fn entered_scale(outputs: Seq<Output>, entered: Set<ObjectId>) -> i32
    decreases outputs.len(),
{
    if outputs.len() == 0 {
        1
    } else {
        let rest = entered_scale(outputs.drop_last(), entered);
        if entered.contains(outputs.last().id) && outputs.last().state.scale > rest {
            outputs.last().state.scale
        } else {
            rest
        }
    }
}

/// The scale of a surface is at least one and at least that of every output it is on, and
/// it is one of these.
pub proof fn lemma_entered_scale_is_largest(outputs: Seq<Output>, entered: Set<ObjectId>)
    ensures
        entered_scale(outputs, entered) >= 1,
        forall|i: int|
            0 <= i < outputs.len() && entered.contains(outputs[i].id) ==> entered_scale(
                outputs,
                entered,
            ) >= (#[trigger] outputs[i]).state.scale,
        entered_scale(outputs, entered) == 1 || exists|i: int|
            0 <= i < outputs.len() && entered.contains(outputs[i].id) && entered_scale(
                outputs,
                entered,
            ) == (#[trigger] outputs[i]).state.scale,
    decreases outputs.len(),
{
    if outputs.len() > 0 {
        let front = outputs.drop_last();
        lemma_entered_scale_is_largest(front, entered);
        assert forall|i: int|
            0 <= i < outputs.len() && entered.contains(outputs[i].id) implies entered_scale(
            outputs,
            entered,
        ) >= (#[trigger] outputs[i]).state.scale by {
            if i < front.len() {
                assert(front[i] == outputs[i]);
            }
        }
        if entered_scale(outputs, entered) != 1 {
            if entered_scale(outputs, entered) == entered_scale(front, entered) {
                let i = choose|i: int|
                    0 <= i < front.len() && entered.contains(front[i].id) && entered_scale(
                        front,
                        entered,
                    ) == (#[trigger] front[i]).state.scale;
                assert(outputs[i] == front[i]);
            } else {
                assert(outputs[outputs.len() - 1] == outputs.last());
            }
        }
    }
}

/// Finds the first window whose object in `role` is `id`.
pub(crate) fn find_window(windows: &Vec<Window>, role: Role, id: ObjectId) -> (found: Option<usize>)
    ensures
        match found {
            Some(i) => i < windows.len() && first_window(window_views(windows@), role, id) == Some(
                i as int,
            ),
            None => first_window(window_views(windows@), role, id) is None,
        },
{
    let ghost names = ids(window_views(windows@), role);
    proof {
        names.index_of_first_ensures(id);
    }
    let mut i: usize = 0;
    while i < windows.len()
        invariant
            i <= windows.len(),
            names == ids(window_views(windows@), role),
            forall|j: int| 0 <= j < i ==> names[j] != id,
        decreases windows.len() - i,
    {
        let window = &windows[i];
        let name: ObjectId = match role {
            Role::XdgSurface => window.xdg_surface,
            Role::Surface => window.surface,
            Role::Toplevel => window.toplevel,
        };
        assert(name == names[i as int]);
        if name == id {
            proof {
                names.index_of_first_ensures(id);
            }
            return Some(i);
        }
        i = i + 1;
    }
    None
}

/// Finds the first output named `id`.
pub(crate) fn find_output(outputs: &Vec<Output>, id: ObjectId) -> (found: Option<usize>)
    ensures
        match found {
            Some(i) => i < outputs.len() && output_ids(outputs@).index_of_first(id) == Some(
                i as int,
            ),
            None => output_ids(outputs@).index_of_first(id) is None && !output_ids(
                outputs@,
            ).contains(id),
        },
{
    let ghost names = output_ids(outputs@);
    proof {
        names.index_of_first_ensures(id);
    }
    let mut i: usize = 0;
    while i < outputs.len()
        invariant
            i <= outputs.len(),
            names == output_ids(outputs@),
            forall|j: int| 0 <= j < i ==> names[j] != id,
        decreases outputs.len() - i,
    {
        assert(names[i as int] == outputs[i as int].id);
        if outputs[i].id == id {
            proof {
                names.index_of_first_ensures(id);
            }
            return Some(i);
        }
        i = i + 1;
    }
    None
}

/// The largest scale of the outputs in `entered`, but at least one.
pub(crate) fn largest_scale(outputs: &Vec<Output>, entered: &HashSet<ObjectId>) -> (scale: i32)
    ensures
        scale == entered_scale(outputs@, entered@),
{
    let mut scale: i32 = 1;
    let mut i: usize = 0;
    while i < outputs.len()
        invariant
            i <= outputs.len(),
            scale == entered_scale(outputs@.take(i as int), entered@),
        decreases outputs.len() - i,
    {
        let output = outputs[i];
        if entered.contains(&output.id) && output.state.scale > scale {
            scale = output.state.scale;
        }
        assert(outputs@.take(i + 1).drop_last() =~= outputs@.take(i as int));
        i = i + 1;
    }
    assert(outputs@.take(i as int) =~= outputs@);
    scale
}

} // verus!
