//! The plugin's own window, as far as its behaviour is decided here: its
//! default size and the one message that it answers itself.

use vstd::prelude::*;

verus! {

/// The message by which a dialog asks a control which keys it wants.
pub const WM_GETDLGCODE: u32 = 0x0087;

/// The answer to `WM_GETDLGCODE` of a control that wants every key.
pub const DLGC_WANTALLKEYS: isize = 0x0004;

/// The answer of the window to `message`, where the window answers itself:
/// it claims all keys. `None` leaves the message to the system's default
/// handling.
pub fn window_procedure(message: u32) -> (answer: Option<isize>)
    ensures
        message == WM_GETDLGCODE ==> answer == Some(DLGC_WANTALLKEYS),
        message != WM_GETDLGCODE ==> answer is None,
{
    if message == WM_GETDLGCODE {
        Some(DLGC_WANTALLKEYS)
    } else {
        None
    }
}

/// Half of `extent`, rounded towards zero.
pub open spec fn half(extent: i32) -> int {
    if extent >= 0 {
        extent / 2
    } else {
        -((-extent) / 2)
    }
}

/// The size of a window that was given none: half the screen in each
/// direction.
pub fn default_size(screen_width: i32, screen_height: i32) -> (size: (i32, i32))
    ensures
        size.0 == half(screen_width),
        size.1 == half(screen_height),
{
    (screen_width / 2, screen_height / 2)
}

} // verus!
