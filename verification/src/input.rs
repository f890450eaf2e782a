use vstd::prelude::*;

use crate::keys::{
    KEYEVENTF_EXTENDEDKEY, KEYEVENTF_KEYUP, MOUSEEVENTF_LEFTDOWN, MOUSEEVENTF_LEFTUP,
    MOUSEEVENTF_WHEEL, VK_LCONTROL, VK_LMENU, VK_Y, VK_Z,
};

verus! {

/// One piece of input that the host program performs, in order.
#[derive(Clone, Copy, Debug, PartialEq, Eq, Structural)]
pub enum Action {
    /// Remember where the cursor is now; reading the position must succeed.
    SaveCursor,
    /// Put the cursor back where it was last remembered.
    RestoreCursor,
    /// Move the cursor to an absolute screen position.
    MoveCursor { x: i32, y: i32 },
    /// A mouse event with these flags and this data word.
    Mouse { flags: u32, data: u32 },
    /// A keyboard event for this key, scan code and flags.
    Key { vk: u8, scan: u8, flags: u32 },
    /// Show the toast that names the zoom mode (manual or automatic).
    ShowToast { manual: bool },
}

/// How far one zoom step scrolls: fourteen wheel notches of 120 each.
pub const DEFAULT_DW_AMOUNT: u32 = 120 * 14;

/// The scan code sent with a synthesized key press.
pub const KEYPRESS_SCAN: u8 = 0xb8;

/// The wheel amount of one zoom step in the given direction, as the 32-bit
/// data word of the mouse event: `+1680` to zoom in, `-1680` (two's
/// complement) to zoom out.
pub open spec fn scroll_amount_of(zoom_in: bool) -> u32 {
    if zoom_in {
        DEFAULT_DW_AMOUNT
    } else {
        (0x1_0000_0000 - DEFAULT_DW_AMOUNT) as u32
    }
}

/// A left click at `(x, y)`: move there, press and release the left button.
pub open spec fn click_input(x: i32, y: i32) -> Seq<Action> {
    seq![
        Action::MoveCursor { x, y },
        Action::Mouse { flags: MOUSEEVENTF_LEFTDOWN, data: 0 },
        Action::Mouse { flags: MOUSEEVENTF_LEFTUP, data: 0 },
    ]
}

/// Tapping `key` as an extended key: press, then release.
pub open spec fn keypress_input(key: u8) -> Seq<Action> {
    seq![
        Action::Key { vk: key, scan: KEYPRESS_SCAN, flags: KEYEVENTF_EXTENDEDKEY },
        Action::Key { vk: key, scan: KEYPRESS_SCAN, flags: KEYEVENTF_EXTENDEDKEY | KEYEVENTF_KEYUP },
    ]
}

/// Control held down while the wheel turns by `amount`.
pub open spec fn ctrl_scroll_input(amount: u32) -> Seq<Action> {
    seq![
        Action::Key { vk: VK_LCONTROL, scan: 0, flags: 0 },
        Action::Mouse { flags: MOUSEEVENTF_WHEEL, data: amount },
        Action::Key { vk: VK_LCONTROL, scan: 0, flags: KEYEVENTF_KEYUP },
    ]
}

/// The key that, with control held, undoes (`Z`) or redoes (`Y`).
pub open spec fn undo_key_of(redo: bool) -> u8 {
    if redo {
        VK_Y
    } else {
        VK_Z
    }
}

/// Control+Z for undo, Control+Y for redo.
pub open spec fn undo_input(redo: bool) -> Seq<Action> {
    let key = undo_key_of(redo);
    seq![
        Action::Key { vk: VK_LCONTROL, scan: 0, flags: KEYEVENTF_EXTENDEDKEY },
        Action::Key { vk: key, scan: 0, flags: 0 },
        Action::Key { vk: key, scan: 0, flags: KEYEVENTF_KEYUP },
        Action::Key { vk: VK_LCONTROL, scan: 0, flags: KEYEVENTF_EXTENDEDKEY | KEYEVENTF_KEYUP },
    ]
}

/// The wheel data word for one zoom step in or out.
pub fn scroll_amount(zoom_in: bool) -> (r: u32)
    ensures
        r == scroll_amount_of(zoom_in),
        r as i32 == (if zoom_in { 1680i32 } else { -1680i32 }),
{
    if zoom_in {
        DEFAULT_DW_AMOUNT
    } else {
        let r: u32 = u32::MAX - DEFAULT_DW_AMOUNT + 1;
        assert(4294965616u32 as i32 == -1680i32) by (bit_vector);
        r
    }
}

/// The key that undoes (`Z`) or redoes (`Y`) together with control.
pub fn undo_key(redo: bool) -> (r: u8)
    ensures
        r == undo_key_of(redo),
{
    if redo {
        VK_Y
    } else {
        VK_Z
    }
}

/// The input of a left click at `(x, y)`.
pub fn click(x: i32, y: i32) -> (r: Vec<Action>)
    ensures
        r@ == click_input(x, y),
{
    let mut r: Vec<Action> = Vec::new();
    r.push(Action::MoveCursor { x, y });
    r.push(Action::Mouse { flags: MOUSEEVENTF_LEFTDOWN, data: 0 });
    r.push(Action::Mouse { flags: MOUSEEVENTF_LEFTUP, data: 0 });
    r
}

/// The input of tapping `key`.
pub fn send_keypress(key: u8) -> (r: Vec<Action>)
    ensures
        r@ == keypress_input(key),
{
    let mut r: Vec<Action> = Vec::new();
    r.push(Action::Key { vk: key, scan: KEYPRESS_SCAN, flags: KEYEVENTF_EXTENDEDKEY });
    r.push(
        Action::Key { vk: key, scan: KEYPRESS_SCAN, flags: KEYEVENTF_EXTENDEDKEY | KEYEVENTF_KEYUP },
    );
    r
}

/// The input of turning the wheel by `dw_amount` with control held, which
/// zooms the canvas.
pub fn send_ctrl_scroll_zoom(dw_amount: u32) -> (r: Vec<Action>)
    ensures
        r@ == ctrl_scroll_input(dw_amount),
{
    let mut r: Vec<Action> = Vec::new();
    r.push(Action::Key { vk: VK_LCONTROL, scan: 0, flags: 0 });
    r.push(Action::Mouse { flags: MOUSEEVENTF_WHEEL, data: dw_amount });
    r.push(Action::Key { vk: VK_LCONTROL, scan: 0, flags: KEYEVENTF_KEYUP });
    r
}

/// The input of an undo (Control+Z) or, with `redo`, a redo (Control+Y).
pub fn issue_undo(redo: bool) -> (r: Vec<Action>)
    ensures
        r@ == undo_input(redo),
{
    let key = undo_key(redo);
    let mut r: Vec<Action> = Vec::new();
    r.push(Action::Key { vk: VK_LCONTROL, scan: 0, flags: KEYEVENTF_EXTENDEDKEY });
    r.push(Action::Key { vk: key, scan: 0, flags: 0 });
    r.push(Action::Key { vk: key, scan: 0, flags: KEYEVENTF_KEYUP });
    r.push(
        Action::Key { vk: VK_LCONTROL, scan: 0, flags: KEYEVENTF_EXTENDEDKEY | KEYEVENTF_KEYUP },
    );
    r
}

/// The keys that are tapped, one after another, to reset the zoom through
/// the application's menu. Only the left alt key is sent: the rest of the
/// menu walk does not reach the application.
pub fn set_zoom_to_default() -> (r: Vec<u8>)
    ensures
        r@ == seq![VK_LMENU],
{
    let mut r: Vec<u8> = Vec::new();
    r.push(VK_LMENU);
    r
}

} // verus!
