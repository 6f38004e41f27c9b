//! The icon names of the cursor styles.

use vstd::prelude::*;

verus! {

/// The size, in pixels, in which the cursor theme is loaded.
pub const CURSOR_SIZE: u32 = 24;

#[derive(Clone, Copy, Debug, PartialEq, Eq, Structural)]
pub enum CursorStyle {
    Arrow,
    IBeam,
    Crosshair,
    ClosedHand,
    OpenHand,
    PointingHand,
    ResizeLeft,
    ResizeRight,
    ResizeLeftRight,
    ResizeUp,
    ResizeDown,
    ResizeUpDown,
    DisappearingItem,
    IBeamCursorForVerticalLayout,
    OperationNotAllowed,
    DragLink,
    DragCopy,
    ContextualMenu,
}

/// The name of the icon that shows a cursor style.
///
/// The names are those of the GNOME and KDE cursor themes, which follow the names of the
/// CSS `cursor` property. No theme has an icon for an item that disappears when dropped:
/// it borrows the one of the closed hand.
pub open spec fn spec_cursor_icon_name(style: CursorStyle) -> Seq<char> {
    match style {
        CursorStyle::Arrow => "arrow"@,
        CursorStyle::IBeam => "text"@,
        CursorStyle::Crosshair => "crosshair"@,
        CursorStyle::ClosedHand => "grabbing"@,
        CursorStyle::OpenHand => "grab"@,
        CursorStyle::PointingHand => "pointer"@,
        CursorStyle::ResizeLeft => "w-resize"@,
        CursorStyle::ResizeRight => "e-resize"@,
        CursorStyle::ResizeLeftRight => "ew-resize"@,
        CursorStyle::ResizeUp => "n-resize"@,
        CursorStyle::ResizeDown => "s-resize"@,
        CursorStyle::ResizeUpDown => "ns-resize"@,
        CursorStyle::DisappearingItem => "grabbing"@,
        CursorStyle::IBeamCursorForVerticalLayout => "vertical-text"@,
        CursorStyle::OperationNotAllowed => "not-allowed"@,
        CursorStyle::DragLink => "alias"@,
        CursorStyle::DragCopy => "copy"@,
        CursorStyle::ContextualMenu => "context-menu"@,
    }
}

/// The name of the icon that shows `style`.
pub fn cursor_icon_name(style: CursorStyle) -> (name: &'static str)
    ensures
        name@ == spec_cursor_icon_name(style),
{
    match style {
        CursorStyle::Arrow => "arrow",
        CursorStyle::IBeam => "text",
        CursorStyle::Crosshair => "crosshair",
        CursorStyle::ClosedHand => "grabbing",
        CursorStyle::OpenHand => "grab",
        CursorStyle::PointingHand => "pointer",
        CursorStyle::ResizeLeft => "w-resize",
        CursorStyle::ResizeRight => "e-resize",
        CursorStyle::ResizeLeftRight => "ew-resize",
        CursorStyle::ResizeUp => "n-resize",
        CursorStyle::ResizeDown => "s-resize",
        CursorStyle::ResizeUpDown => "ns-resize",
        CursorStyle::DisappearingItem => "grabbing",
        CursorStyle::IBeamCursorForVerticalLayout => "vertical-text",
        CursorStyle::OperationNotAllowed => "not-allowed",
        CursorStyle::DragLink => "alias",
        CursorStyle::DragCopy => "copy",
        CursorStyle::ContextualMenu => "context-menu",
    }
}

/// Two styles share an icon only where they are the same, or are the closed hand and the
/// disappearing item.
pub proof fn lemma_icon_tells_style(a: CursorStyle, b: CursorStyle)
    requires
        spec_cursor_icon_name(a) == spec_cursor_icon_name(b),
    ensures
        a == b || (a is ClosedHand && b is DisappearingItem) || (a is DisappearingItem
            && b is ClosedHand),
{
    reveal_strlit("arrow");
    reveal_strlit("text");
    reveal_strlit("crosshair");
    reveal_strlit("grabbing");
    reveal_strlit("grab");
    reveal_strlit("pointer");
    reveal_strlit("w-resize");
    reveal_strlit("e-resize");
    reveal_strlit("ew-resize");
    reveal_strlit("n-resize");
    reveal_strlit("s-resize");
    reveal_strlit("ns-resize");
    reveal_strlit("vertical-text");
    reveal_strlit("not-allowed");
    reveal_strlit("alias");
    reveal_strlit("copy");
    reveal_strlit("context-menu");
    let s = spec_cursor_icon_name(a);
    let t = spec_cursor_icon_name(b);
    assert(s.len() == t.len());
    assert(s[0] == t[0]);
    assert(s[1] == t[1]);
}

/// The icon names, as the cursor themes have them.
pub proof fn lemma_icon_names()
    ensures
        spec_cursor_icon_name(CursorStyle::Arrow) == "arrow"@,
        spec_cursor_icon_name(CursorStyle::IBeam) == "text"@,
        spec_cursor_icon_name(CursorStyle::Crosshair) == "crosshair"@,
        spec_cursor_icon_name(CursorStyle::ClosedHand) == "grabbing"@,
        spec_cursor_icon_name(CursorStyle::OpenHand) == "grab"@,
        spec_cursor_icon_name(CursorStyle::PointingHand) == "pointer"@,
        spec_cursor_icon_name(CursorStyle::ResizeLeft) == "w-resize"@,
        spec_cursor_icon_name(CursorStyle::ResizeRight) == "e-resize"@,
        spec_cursor_icon_name(CursorStyle::ResizeLeftRight) == "ew-resize"@,
        spec_cursor_icon_name(CursorStyle::ResizeUp) == "n-resize"@,
        spec_cursor_icon_name(CursorStyle::ResizeDown) == "s-resize"@,
        spec_cursor_icon_name(CursorStyle::ResizeUpDown) == "ns-resize"@,
        spec_cursor_icon_name(CursorStyle::DisappearingItem) == "grabbing"@,
        spec_cursor_icon_name(CursorStyle::IBeamCursorForVerticalLayout) == "vertical-text"@,
        spec_cursor_icon_name(CursorStyle::OperationNotAllowed) == "not-allowed"@,
        spec_cursor_icon_name(CursorStyle::DragLink) == "alias"@,
        spec_cursor_icon_name(CursorStyle::DragCopy) == "copy"@,
        spec_cursor_icon_name(CursorStyle::ContextualMenu) == "context-menu"@,
{
}

} // verus!
