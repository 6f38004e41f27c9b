use gpui_wayland::cursor::{cursor_icon_name, CURSOR_SIZE};
use gpui_wayland::CursorStyle;

#[test]
fn every_style_has_its_icon() {
    let names = [
        (CursorStyle::Arrow, "arrow"),
        (CursorStyle::IBeam, "text"),
        (CursorStyle::Crosshair, "crosshair"),
        (CursorStyle::ClosedHand, "grabbing"),
        (CursorStyle::OpenHand, "grab"),
        (CursorStyle::PointingHand, "pointer"),
        (CursorStyle::ResizeLeft, "w-resize"),
        (CursorStyle::ResizeRight, "e-resize"),
        (CursorStyle::ResizeLeftRight, "ew-resize"),
        (CursorStyle::ResizeUp, "n-resize"),
        (CursorStyle::ResizeDown, "s-resize"),
        (CursorStyle::ResizeUpDown, "ns-resize"),
        (CursorStyle::DisappearingItem, "grabbing"),
        (CursorStyle::IBeamCursorForVerticalLayout, "vertical-text"),
        (CursorStyle::OperationNotAllowed, "not-allowed"),
        (CursorStyle::DragLink, "alias"),
        (CursorStyle::DragCopy, "copy"),
        (CursorStyle::ContextualMenu, "context-menu"),
    ];
    for (style, name) in names {
        assert_eq!(cursor_icon_name(style), name);
    }
    assert_eq!(CURSOR_SIZE, 24);
}
