use gpui_wayland::input::{Modifiers, MouseButton, NavigationDirection};
use gpui_wayland::{linux_button_to_gpui, Point};

#[test]
fn mouse_buttons_have_their_numbers() {
    assert_eq!(linux_button_to_gpui(0x110), Some(MouseButton::Left));
    assert_eq!(linux_button_to_gpui(0x111), Some(MouseButton::Right));
    assert_eq!(linux_button_to_gpui(0x112), Some(MouseButton::Middle));
    let back = MouseButton::Navigate(NavigationDirection::Back);
    let forward = MouseButton::Navigate(NavigationDirection::Forward);
    assert_eq!(linux_button_to_gpui(0x113), Some(back));
    assert_eq!(linux_button_to_gpui(0x114), Some(forward));
    assert_eq!(linux_button_to_gpui(0x115), Some(forward));
    assert_eq!(linux_button_to_gpui(0x116), Some(back));
}

#[test]
fn other_numbers_are_no_mouse_button() {
    assert_eq!(linux_button_to_gpui(0), None);
    assert_eq!(linux_button_to_gpui(0x10f), None);
    assert_eq!(linux_button_to_gpui(0x117), None);
    assert_eq!(linux_button_to_gpui(u32::MAX), None);
}

#[test]
fn defaults_are_empty() {
    assert_eq!(Point::default(), Point { x: 0, y: 0 });
    let none = Modifiers::default();
    assert!(!none.shift && !none.control && !none.alt && !none.function && !none.platform);
}
