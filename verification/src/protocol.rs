//! Facts about the Wayland protocol and about keysyms, taken from the crates that define
//! them.

use vstd::prelude::*;
use wayland_client::protocol::wl_pointer;
use wayland_client::protocol::wl_seat;
use wayland_client::protocol::wl_surface;
use wayland_protocols::xdg::shell::client::xdg_toplevel;

verus! {

/// The version of `wl_pointer` that brought the `axis_value120` event.
pub open spec fn spec_axis_value120_since() -> u32 {
    8
}

/// The version of `wl_surface` that brought the `preferred_buffer_scale` event.
pub open spec fn spec_preferred_buffer_scale_since() -> u32 {
    6
}

/// The version of `wl_surface` that brought the `set_buffer_scale` request.
pub open spec fn spec_set_buffer_scale_since() -> u32 {
    3
}

/// The number of the `fullscreen` state of `xdg_toplevel`.
pub open spec fn spec_fullscreen_state() -> u8 {
    2
}

/// The bit of the `pointer` capability of `wl_seat`.
pub open spec fn spec_pointer_capability() -> u32 {
    1
}

/// The bit of the `keyboard` capability of `wl_seat`.
pub open spec fn spec_keyboard_capability() -> u32 {
    2
}

/// Whether `keysym` is one of the ranges of modifier keys: `Shift_L` to `Hyper_R`,
/// `ISO_Lock` to `ISO_Level5_Lock`, `Mode_switch` and `Num_Lock`.
pub open spec fn spec_is_modifier_key(keysym: u32) -> bool {
    ||| 0xffe1 <= keysym <= 0xffee
    ||| 0xfe01 <= keysym <= 0xfe13
    ||| keysym == 0xff7e
    ||| keysym == 0xff7f
}

/// Reads `wayland_client::protocol::wl_pointer::EVT_AXIS_VALUE120_SINCE`, trusted to be
/// the version at which the protocol description introduces the event.
#[verifier::external_body]
pub(crate) fn axis_value120_since() -> (version: u32)
    ensures
        version == spec_axis_value120_since(),
{
    wl_pointer::EVT_AXIS_VALUE120_SINCE
}

/// Reads `wayland_client::protocol::wl_surface::EVT_PREFERRED_BUFFER_SCALE_SINCE`,
/// trusted to be the version at which the protocol description introduces the event.
#[verifier::external_body]
pub(crate) fn preferred_buffer_scale_since() -> (version: u32)
    ensures
        version == spec_preferred_buffer_scale_since(),
{
    wl_surface::EVT_PREFERRED_BUFFER_SCALE_SINCE
}

/// Reads `wayland_client::protocol::wl_surface::REQ_SET_BUFFER_SCALE_SINCE`, trusted to
/// be the version at which the protocol description introduces the request.
#[verifier::external_body]
pub(crate) fn set_buffer_scale_since() -> (version: u32)
    ensures
        version == spec_set_buffer_scale_since(),
{
    wl_surface::REQ_SET_BUFFER_SCALE_SINCE
}

/// Reads the number of `xdg_toplevel::State::Fullscreen` of `wayland_protocols`, trusted
/// to be the one in the xdg-shell protocol description.
#[verifier::external_body]
pub(crate) fn fullscreen_state() -> (state: u8)
    ensures
        state == spec_fullscreen_state(),
{
    xdg_toplevel::State::Fullscreen as u8
}

/// Reads the bit of `wl_seat::Capability::Pointer` of `wayland_client`, trusted to be the
/// one in the protocol description.
#[verifier::external_body]
pub(crate) fn pointer_capability() -> (bit: u32)
    ensures
        bit == spec_pointer_capability(),
{
    wl_seat::Capability::Pointer.bits()
}

/// Reads the bit of `wl_seat::Capability::Keyboard` of `wayland_client`, trusted to be
/// the one in the protocol description.
#[verifier::external_body]
pub(crate) fn keyboard_capability() -> (bit: u32)
    ensures
        bit == spec_keyboard_capability(),
{
    wl_seat::Capability::Keyboard.bits()
}

/// Calls `wl_seat::Capability::contains` of `wayland_client`, trusted to hold exactly
/// when every bit of `wanted` is set in `capabilities`.
#[verifier::external_body]
pub(crate) fn capabilities_contain(capabilities: u32, wanted: u32) -> (contained: bool)
    ensures
        contained == (capabilities & wanted == wanted),
{
    wl_seat::Capability::from_bits_retain(capabilities).contains(
        wl_seat::Capability::from_bits_retain(wanted),
    )
}

/// Calls `xkeysym::Keysym::is_modifier_key`, trusted to hold exactly on the ranges that
/// the crate lists.
#[verifier::external_body]
pub(crate) fn is_modifier_key(keysym: u32) -> (modifier: bool)
    ensures
        modifier == spec_is_modifier_key(keysym),
{
    xkeysym::Keysym::new(keysym).is_modifier_key()
}

/// Tells whether both strings hold the same characters.
pub(crate) fn same_text(left: &str, right: &str) -> (same: bool)
    ensures
        same == (left@ == right@),
{
    left.to_owned() == right.to_owned()
}

} // verus!
