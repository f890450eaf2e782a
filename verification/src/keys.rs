use vstd::prelude::*;

verus! {

// Virtual-key codes (Windows `VK_*` values).

/// Escape.
pub const VK_ESCAPE: u8 = 0x1B;
/// Left arrow.
pub const VK_LEFT: u8 = 0x25;
/// Right arrow.
pub const VK_RIGHT: u8 = 0x27;
/// Left shift.
pub const VK_LSHIFT: u8 = 0xA0;
/// Right shift.
pub const VK_RSHIFT: u8 = 0xA1;
/// Left control.
pub const VK_LCONTROL: u8 = 0xA2;
/// Right control.
pub const VK_RCONTROL: u8 = 0xA3;
/// Left alt.
pub const VK_LMENU: u8 = 0xA4;
/// The `,` key.
pub const VK_OEM_COMMA: u8 = 0xBC;
/// The `-` key.
pub const VK_OEM_MINUS: u8 = 0xBD;
/// The `.` key.
pub const VK_OEM_PERIOD: u8 = 0xBE;
/// The `Y` key.
pub const VK_Y: u8 = 0x59;
/// The `Z` key.
pub const VK_Z: u8 = 0x5A;

// Flags of synthesized keyboard and mouse input.

/// The key is an extended key.
pub const KEYEVENTF_EXTENDEDKEY: u32 = 0x0001;
/// The key is being released.
pub const KEYEVENTF_KEYUP: u32 = 0x0002;
/// Left mouse button pressed.
pub const MOUSEEVENTF_LEFTDOWN: u32 = 0x0002;
/// Left mouse button released.
pub const MOUSEEVENTF_LEFTUP: u32 = 0x0004;
/// Vertical wheel movement; the data word holds the amount.
pub const MOUSEEVENTF_WHEEL: u32 = 0x0800;

// Window messages.

/// A key went down.
pub const WM_KEYDOWN: u32 = 0x0100;
/// Hit test in the non-client area.
pub const WM_NCHITTEST: u32 = 0x0084;
/// Mouse activation of an inactive window.
pub const WM_MOUSEACTIVATE: u32 = 0x0021;
/// Left button down in the non-client area.
pub const WM_NCLBUTTONDOWN: u32 = 0x00A1;
/// Left button up in the non-client area.
pub const WM_NCLBUTTONUP: u32 = 0x00A2;
/// Left button double click in the non-client area.
pub const WM_NCLBUTTONDBLCLK: u32 = 0x00A3;
/// The mouse moved.
pub const WM_MOUSEMOVE: u32 = 0x0200;
/// Left button down.
pub const WM_LBUTTONDOWN: u32 = 0x0201;
/// Left button up.
pub const WM_LBUTTONUP: u32 = 0x0202;
/// Left button double click.
pub const WM_LBUTTONDBLCLK: u32 = 0x0203;
/// Middle button down.
pub const WM_MBUTTONDOWN: u32 = 0x0207;
/// Middle button up.
pub const WM_MBUTTONUP: u32 = 0x0208;
/// Middle button double click.
pub const WM_MBUTTONDBLCLK: u32 = 0x0209;
/// Vertical wheel.
pub const WM_MOUSEWHEEL: u32 = 0x020A;
/// Horizontal wheel.
pub const WM_MOUSEHWHEEL: u32 = 0x020E;
/// The mouse hovered.
pub const WM_MOUSEHOVER: u32 = 0x02A1;
/// The mouse left the window.
pub const WM_MOUSELEAVE: u32 = 0x02A3;

// Window styles.

/// Extended window style of a layered window.
pub const WS_EX_LAYERED: isize = 0x0008_0000;

} // verus!
