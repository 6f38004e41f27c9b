use gpui_wayland::{ClipboardItem, WaylandClient};

#[test]
fn text_is_written_without_metadata() {
    let item = ClipboardItem { text: "copied".to_string(), metadata: Some("note".to_string()) };
    assert_eq!(WaylandClient::write_to_clipboard(item), "copied");
}

#[test]
fn text_is_read_back() {
    let read: Option<ClipboardItem> =
        WaylandClient::read_from_clipboard::<()>(Ok("copied".to_string()));
    assert_eq!(read, Some(ClipboardItem { text: "copied".to_string(), metadata: None }));
    assert_eq!(WaylandClient::read_from_clipboard(Err("closed")), None);
}
