# gpui_wayland

The decisions of a Wayland client, written in Rust and proved with Verus: which globals to
bind, which window an event is for, which input to deliver to it, how clicks are counted
and keys repeat, at which scale a surface is drawn.

* `src/` is the library. It holds no connection. `WaylandClient::event` takes an event as
  a plain value and returns the effects to carry out, in order; `ClientView::step` says
  what they are. `history.rs` and `laws.rs` hold what is proved of the client as a whole.
* `app/` receives the events of a compositor, names the protocol objects, and carries the
  effects out. What belongs to the application around it (windows, keystrokes, the cursor
  theme) it takes from the trait `Host`.
* `tests/` runs the library.

Positions and axis values are integers that count steps of 1/256 of a pixel, the unit in
which the protocol sends them. Times are integers that count nanoseconds.
