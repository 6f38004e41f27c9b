//! Text that goes to the clipboard and comes from it.

use crate::client::WaylandClient;
use vstd::prelude::*;

verus! {

/// What was copied: a text, and what the application noted about it.
#[derive(Debug, PartialEq, Eq)]
pub struct ClipboardItem {
    pub text: String,
    pub metadata: Option<String>,
}

impl WaylandClient {
    /// The text to put on the clipboard for `item`. The clipboard holds no metadata.
    pub fn write_to_clipboard(item: ClipboardItem) -> (text: String)
        ensures
            text == item.text,
    {
        item.text
    }

    /// The item for what the clipboard answered: its text without metadata, or nothing
    /// where it could not be read.
    pub fn read_from_clipboard<E>(contents: Result<String, E>) -> (item: Option<ClipboardItem>)
        ensures
            item == match contents {
                Ok(text) => Some(ClipboardItem { text, metadata: None }),
                Err(_) => None,
            },
    {
        match contents {
            Ok(text) => Some(ClipboardItem { text, metadata: None }),
            Err(_) => None,
        }
    }
}

} // verus!
