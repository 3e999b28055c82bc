//! Window-class descriptions and window-procedure decisions for the custom
//! system classes of the toolkit: the external canvas class and the tab class.
//!
//! A window procedure either answers a message itself or leaves it to the
//! default procedure. The choice, and the value answered, are pure functions
//! of the message code and are stated here; the platform layer forwards the
//! unanswered messages to the default procedure of the OS.

use vstd::prelude::*;

use crate::error::NwgError;

verus! {

/// Message code sent when a window is being created.
pub const WM_CREATE: u32 = 0x0001;

/// Message code sent when a window's background must be erased.
pub const WM_ERASEBKGND: u32 = 0x0014;

/// Class style: redraw the whole window on a vertical size change.
pub const CS_VREDRAW: u32 = 0x0001;

/// Class style: redraw the whole window on a horizontal size change.
pub const CS_HREDRAW: u32 = 0x0002;

/// Class style: give each window of the class its own device context.
pub const CS_OWNDC: u32 = 0x0020;

/// System color index of the button face color, used as a class background.
pub const COLOR_BTNFACE: u32 = 15;

/// Name under which the external canvas window class is registered.
pub const EXT_CANVAS_CLASS_ID: &'static str = "NWG_EXTERN_CANVAS";

/// Name under which the tab window class is registered.
pub const TAB_CLASS_ID: &'static str = "NWG_TAB";

/// What the external canvas window procedure answers: `0` for creation so the
/// window is accepted, `1` for background erasure so the canvas is left
/// untouched, and nothing for every other message.
pub open spec fn extern_canvas_response(msg: u32) -> Option<isize> {
    if msg == WM_CREATE {
        Some(0isize)
    } else if msg == WM_ERASEBKGND {
        Some(1isize)
    } else {
        None
    }
}

/// The message dispatch decision of the external canvas window procedure.
/// `None` means the message is left to the default window procedure.
pub fn extern_canvas_proc(msg: u32) -> (r: Option<isize>)
    ensures
        r == extern_canvas_response(msg),
{
    match msg {
        WM_CREATE => Some(0),
        WM_ERASEBKGND => Some(1),
        _ => None,
    }
}

/// What the tab window procedure answers: `0` for creation so the window is
/// accepted, and nothing for every other message.
pub open spec fn tab_response(msg: u32) -> Option<isize> {
    if msg == WM_CREATE {
        Some(0isize)
    } else {
        None
    }
}

/// The message dispatch decision of the tab window procedure. `None` means
/// the message is left to the default window procedure.
pub fn tab_proc(msg: u32) -> (r: Option<isize>)
    ensures
        r == tab_response(msg),
{
    match msg {
        WM_CREATE => Some(0),
        _ => None,
    }
}

/// Everything a system window class is registered with, besides the window
/// procedure itself: the class name, the background brush (`None` keeps the
/// toolkit's default) and the class styles (`None` keeps the default styles).
/// A brush is an OS handle, carried here as its plain address value; `0` is
/// the null brush.
pub struct SysClassSetup {
    pub class_name: &'static str,
    pub background_brush: Option<usize>,
    pub style: Option<u32>,
}

/// The registration parameters of the external canvas class: a null
/// background brush, and an own device context with full redraws on resize.
pub fn extern_canvas_class_setup() -> (r: SysClassSetup)
    ensures
        r.class_name@ == EXT_CANVAS_CLASS_ID@,
        r.background_brush == Some(0usize),
        r.style == Some(CS_OWNDC | CS_VREDRAW | CS_HREDRAW),
{
    SysClassSetup {
        class_name: EXT_CANVAS_CLASS_ID,
        background_brush: Some(0),
        style: Some(CS_OWNDC | CS_VREDRAW | CS_HREDRAW),
    }
}

/// The registration parameters of the tab class: the button face color as
/// background, and the default class styles.
pub fn tab_class_setup() -> (r: SysClassSetup)
    ensures
        r.class_name@ == TAB_CLASS_ID@,
        r.background_brush == Some(COLOR_BTNFACE as usize),
        r.style is None,
{
    SysClassSetup {
        class_name: TAB_CLASS_ID,
        background_brush: Some(COLOR_BTNFACE as usize),
        style: None,
    }
}

/// Class registration starts by asking the OS for the module handle; a null
/// handle means the lookup failed and registration must stop. This is that
/// decision on the handle's plain address value.
pub fn module_handle_check(hmod: usize) -> (r: Result<(), NwgError>)
    ensures
        r is Ok <==> hmod != 0,
        hmod == 0 ==> (r matches Err(e) && e matches NwgError::InitializationError(m) && m@
            == "GetModuleHandleW failed"@),
{
    if hmod == 0 {
        Err(NwgError::initialization("GetModuleHandleW failed"))
    } else {
        Ok(())
    }
}

} // verus!
