//! The decisions of a Wayland client: which requests to send and which input to
//! deliver for each event that a compositor reports.
//!
//! The library holds no connection. It is handed events as plain values, keeps the
//! client's state, and answers with the effects that the caller has to carry out, in
//! order. Protocol objects are named by integers that the caller hands out, one per
//! object.

pub mod click;
pub mod client;
pub mod clipboard;
pub mod cursor;
pub mod dispatch;
pub mod effects;
pub mod events;
pub mod geometry;
pub mod history;
pub mod input;
pub mod keyboard;
pub mod laws;
pub mod laws_keyboard;
pub mod laws_pointer;
pub mod laws_windows;
pub mod numbers;
pub mod pointer;
pub mod protocol;
pub mod registry;
pub mod repeat;
pub mod shell;
pub mod surface;
pub mod windows;

pub use click::ClickState;
pub use client::Startup;
pub use client::WaylandClient;
pub use clipboard::ClipboardItem;
pub use cursor::CursorStyle;
pub use effects::Effect;
pub use events::Event;
pub use events::ObjectId;
pub use geometry::Point;
pub use geometry::Scale;
pub use input::linux_button_to_gpui;
pub use input::PlatformInput;
pub use registry::wl_seat_version;
pub use repeat::KeyRepeat;
