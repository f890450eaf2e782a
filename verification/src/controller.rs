use vstd::prelude::*;

use crate::input::{
    click, click_input, ctrl_scroll_input, issue_undo, keypress_input, scroll_amount,
    scroll_amount_of, send_ctrl_scroll_zoom, send_keypress, undo_input, Action,
};
use crate::keys::{
    VK_ESCAPE, VK_LEFT, VK_LSHIFT, VK_OEM_COMMA, VK_OEM_MINUS, VK_OEM_PERIOD, VK_RCONTROL,
    VK_RIGHT, VK_RSHIFT, WM_KEYDOWN,
};
use crate::tools::{
    get_next_tool, is_base, is_tool_base, is_tool_zoomed_in, next_tool, zooms_in, Tools,
};

verus! {

/// Two presses of the same key closer together than this many milliseconds
/// count as a double press.
pub const DOUBLE_PRESS_MS: u32 = 200;

/// Three presses of left shift within this many milliseconds count as a
/// triple press, which is swallowed.
pub const TRIPLE_PRESS_MS: u32 = 400;

/// Where the toolbar buttons are on screen.
pub const TOOLBAR_Y: i32 = 78;
/// The selection button.
pub const SELECT_BUTTON_X: i32 = 147;
/// The eraser button.
pub const ERASER_BUTTON_X: i32 = 228;
/// The pen button.
pub const PEN_BUTTON_X: i32 = 267;

/// Everything the hotkeys remember between key presses.
#[derive(Clone, Copy, Debug, PartialEq, Eq, Structural)]
pub struct HotkeyState {
    /// The active tool.
    pub tool: Tools,
    /// The tool that was active when a base tool was last selected.
    pub base_tool: Tools,
    /// Time of the last right-control press.
    pub last_timestamp: u32,
    /// Time of the last shift press (either side).
    pub last_shift_timestamp: u32,
    /// Time of the left-shift press before the last shift press.
    pub last_shift_timestamp_prev: u32,
    /// Whether the canvas is zoomed in now.
    pub zoomed_in: bool,
    /// Whether zoom is under manual control (otherwise it follows the tool).
    pub zoom_manual: bool,
    /// The zoom level last asked for by hand (or by the automatic zoom).
    pub zoom_manual_value: bool,
}

/// What the hook does with one key press: the input to synthesize, and
/// whether the key press is swallowed instead of passed on.
#[derive(Debug, PartialEq, Eq)]
pub struct KeyResponse {
    pub actions: Vec<Action>,
    pub consumed: bool,
}

/// The state the program starts in: arrow tool, zoomed out, automatic zoom,
/// no key seen yet.
pub open spec fn initial_state() -> HotkeyState {
    HotkeyState {
        tool: Tools::Arrow,
        base_tool: Tools::Arrow,
        last_timestamp: 0,
        last_shift_timestamp: 0,
        last_shift_timestamp_prev: 0,
        zoomed_in: false,
        zoom_manual: false,
        zoom_manual_value: false,
    }
}

/// The input that picks tool `t` in the toolbar: escape for the arrows, a
/// click on the button (and the cursor put back) for the others.
pub open spec fn select_input(t: Tools) -> Seq<Action> {
    match t {
        Tools::Arrow | Tools::ArrowSm => keypress_input(VK_ESCAPE),
        Tools::Select | Tools::SelectLg => click_input(SELECT_BUTTON_X, TOOLBAR_Y).push(
            Action::RestoreCursor,
        ),
        Tools::Eraser => click_input(ERASER_BUTTON_X, TOOLBAR_Y).push(Action::RestoreCursor),
        Tools::Pen => click_input(PEN_BUTTON_X, TOOLBAR_Y).push(Action::RestoreCursor),
    }
}

/// Bringing the zoom to `v`: one zoom step in that direction when the canvas
/// is not there yet, nothing otherwise. The state then records `v` both as
/// the zoom level and as the manual zoom value.
pub open spec fn ensure_zoom_step(s: HotkeyState, v: bool) -> (HotkeyState, Seq<Action>) {
    if s.zoomed_in != v {
        (
            HotkeyState { zoomed_in: v, zoom_manual_value: v, ..s },
            ctrl_scroll_input(scroll_amount_of(v)),
        )
    } else {
        (s, Seq::empty())
    }
}

/// Activating tool `t`: remember the cursor, pick the tool, follow with the
/// zoom unless it is manual, and record the tool (and, for a base tool, the
/// tool it replaces).
pub open spec fn activate_step(s: HotkeyState, t: Tools) -> (HotkeyState, Seq<Action>) {
    let zoom = if s.zoom_manual {
        (s, Seq::empty())
    } else {
        ensure_zoom_step(s, zooms_in(t))
    };
    let base_tool = if is_base(t) {
        s.tool
    } else {
        s.base_tool
    };
    (
        HotkeyState { tool: t, base_tool, ..zoom.0 },
        seq![Action::SaveCursor] + select_input(t) + zoom.1,
    )
}

/// The key press cannot happen before the presses it is timed against.
pub open spec fn times_in_order(s: HotkeyState, vk_code: u32, time: u32) -> bool {
    &&& vk_code == VK_LSHIFT ==> s.last_shift_timestamp <= time && s.last_shift_timestamp_prev
        <= time
    &&& vk_code == VK_RSHIFT ==> s.last_shift_timestamp <= time
    &&& vk_code == VK_RCONTROL ==> s.last_timestamp <= time
}

/// A key press handled by activating `t` and swallowing the key.
pub open spec fn consume_activation(s: HotkeyState, t: Tools) -> (HotkeyState, Seq<Action>, bool) {
    let a = activate_step(s, t);
    (a.0, a.1, true)
}

/// A key press passed on untouched.
pub open spec fn pass(s: HotkeyState) -> (HotkeyState, Seq<Action>, bool) {
    (s, Seq::empty(), false)
}

/// What a key-down event with code `vk_code` at `time` (milliseconds) does:
/// the next state, the input to synthesize, and whether the key is swallowed.
///
/// - Escape: back to the arrow (no input), passed on.
/// - `.`: eraser to pen, any other tool but the arrow to eraser; swallowed.
///   With the arrow it is passed on.
/// - `,`: small arrow to pen, anything else to small arrow; swallowed.
/// - Left / right arrow: undo / redo unless the arrow is active; swallowed.
/// - Left shift: a third press within 400 ms of the press before last is
///   passed on and selects the arrow; a second press within 200 ms flips the
///   manual zoom and zooms there (swallowed); otherwise the arrow is selected
///   and the key passed on.
/// - Right shift: a second press within 200 ms switches between manual and
///   automatic zoom (automatic zoom follows the tool at once) and shows a
///   toast (swallowed); otherwise the arrow is selected and the key passed on.
/// - `-`: large-canvas selection unless the arrow is active; swallowed.
/// - Right control: a second press within 200 ms activates the large
///   selection, a single one the next tool in the cycle; passed on.
/// - Any other key: nothing, passed on.
pub open spec fn key_down_step(s: HotkeyState, vk_code: u32, time: u32) -> (
    HotkeyState,
    Seq<Action>,
    bool,
) {
    if vk_code == VK_ESCAPE {
        (HotkeyState { tool: Tools::Arrow, ..s }, Seq::empty(), false)
    } else if vk_code == VK_OEM_PERIOD {
        if s.tool == Tools::Eraser {
            consume_activation(s, Tools::Pen)
        } else if s.tool != Tools::Arrow {
            consume_activation(s, Tools::Eraser)
        } else {
            pass(s)
        }
    } else if vk_code == VK_OEM_COMMA {
        if s.tool == Tools::ArrowSm {
            consume_activation(s, Tools::Pen)
        } else {
            consume_activation(s, Tools::ArrowSm)
        }
    } else if vk_code == VK_LEFT {
        if s.tool != Tools::Arrow {
            (s, undo_input(false), true)
        } else {
            pass(s)
        }
    } else if vk_code == VK_RIGHT {
        if s.tool != Tools::Arrow {
            (s, undo_input(true), true)
        } else {
            pass(s)
        }
    } else if vk_code == VK_LSHIFT {
        let delta = time - s.last_shift_timestamp;
        let delta_prev = time - s.last_shift_timestamp_prev;
        let s1 = HotkeyState {
            last_shift_timestamp_prev: s.last_shift_timestamp,
            last_shift_timestamp: time,
            ..s
        };
        if delta_prev >= TRIPLE_PRESS_MS && delta < DOUBLE_PRESS_MS {
            let v = !s.zoom_manual_value;
            let z = ensure_zoom_step(HotkeyState { zoom_manual_value: v, ..s1 }, v);
            (z.0, z.1, true)
        } else {
            (HotkeyState { tool: Tools::Arrow, ..s1 }, Seq::empty(), false)
        }
    } else if vk_code == VK_RSHIFT {
        let delta = time - s.last_shift_timestamp;
        let s1 = HotkeyState { last_shift_timestamp: time, ..s };
        if delta < DOUBLE_PRESS_MS {
            let manual = !s.zoom_manual;
            let s2 = HotkeyState { zoom_manual: manual, ..s1 };
            let z = if manual {
                (s2, Seq::empty())
            } else {
                ensure_zoom_step(s2, zooms_in(s.tool))
            };
            (z.0, z.1.push(Action::ShowToast { manual }), true)
        } else {
            (HotkeyState { tool: Tools::Arrow, ..s1 }, Seq::empty(), false)
        }
    } else if vk_code == VK_OEM_MINUS {
        if s.tool != Tools::Arrow {
            consume_activation(s, Tools::Select)
        } else {
            pass(s)
        }
    } else if vk_code == VK_RCONTROL {
        let delta = time - s.last_timestamp;
        let a = if delta < DOUBLE_PRESS_MS {
            activate_step(s, Tools::SelectLg)
        } else {
            activate_step(s, next_tool(s.tool))
        };
        (HotkeyState { last_timestamp: time, ..a.0 }, a.1, false)
    } else {
        pass(s)
    }
}

/// Whether a low-level keyboard hook call carries a key-down event that the
/// hotkeys look at: the hook code is not negative and the message is
/// `WM_KEYDOWN`.
pub open spec fn hook_applies_to(n_code: i32, wparam: usize) -> bool {
    n_code >= 0 && #[verifier::truncate] (wparam as u32) == WM_KEYDOWN
}

/// Whether the keyboard hook should look at this call (see
/// [`hook_applies_to`]); every other call is passed on untouched.
pub fn hook_applies(n_code: i32, wparam: usize) -> (r: bool)
    ensures
        r == hook_applies_to(n_code, wparam),
{
    n_code >= 0 && #[verifier::truncate] (wparam as u32) == WM_KEYDOWN
}

impl HotkeyState {
    /// The state the program starts in.
    pub fn new() -> (r: HotkeyState)
        ensures
            r == initial_state(),
    {
        HotkeyState {
            tool: Tools::Arrow,
            base_tool: Tools::Arrow,
            last_timestamp: 0,
            last_shift_timestamp: 0,
            last_shift_timestamp_prev: 0,
            zoomed_in: false,
            zoom_manual: false,
            zoom_manual_value: false,
        }
    }

    /// The tool a single right-control press moves to from the active tool.
    pub fn get_next_tool(&self) -> (r: Tools)
        ensures
            r == next_tool(self.tool),
    {
        get_next_tool(self.tool)
    }

    /// Whether a key press with `vk_code` at `time` is not earlier than the
    /// presses it is measured against (see [`times_in_order`]).
    pub fn times_in_order(&self, vk_code: u32, time: u32) -> (r: bool)
        ensures
            r == times_in_order(*self, vk_code, time),
    {
        (vk_code != VK_LSHIFT as u32 || (self.last_shift_timestamp <= time
            && self.last_shift_timestamp_prev <= time)) && (vk_code != VK_RSHIFT as u32
            || self.last_shift_timestamp <= time) && (vk_code != VK_RCONTROL as u32
            || self.last_timestamp <= time)
    }

    /// Bring the zoom to `new_value` (see [`ensure_zoom_step`]).
    pub fn ensure_zoom(&mut self, new_value: bool) -> (r: Vec<Action>)
        ensures
            *final(self) == ensure_zoom_step(*old(self), new_value).0,
            r@ == ensure_zoom_step(*old(self), new_value).1,
    {
        if self.zoomed_in != new_value {
            let r = send_ctrl_scroll_zoom(scroll_amount(new_value));
            self.zoomed_in = new_value;
            self.zoom_manual_value = new_value;
            r
        } else {
            Vec::new()
        }
    }

    /// Switch to tool `t` (see [`activate_step`]).
    pub fn activate_tool(&mut self, t: Tools) -> (r: Vec<Action>)
        ensures
            *final(self) == activate_step(*old(self), t).0,
            r@ == activate_step(*old(self), t).1,
    {
        let mut r: Vec<Action> = Vec::new();
        r.push(Action::SaveCursor);
        let mut pick = match t {
            Tools::Arrow | Tools::ArrowSm => send_keypress(VK_ESCAPE),
            Tools::Select | Tools::SelectLg => {
                let mut c = click(SELECT_BUTTON_X, TOOLBAR_Y);
                c.push(Action::RestoreCursor);
                c
            },
            Tools::Eraser => {
                let mut c = click(ERASER_BUTTON_X, TOOLBAR_Y);
                c.push(Action::RestoreCursor);
                c
            },
            Tools::Pen => {
                let mut c = click(PEN_BUTTON_X, TOOLBAR_Y);
                c.push(Action::RestoreCursor);
                c
            },
        };
        r.append(&mut pick);
        if !self.zoom_manual {
            let mut z = self.ensure_zoom(is_tool_zoomed_in(&t));
            r.append(&mut z);
        }
        if is_tool_base(&t) {
            self.base_tool = self.tool;
        }
        self.tool = t;
        r
    }

    /// Handle a key-down event (see [`key_down_step`]).
    pub fn key_down(&mut self, vk_code: u32, time: u32) -> (r: KeyResponse)
        requires
            times_in_order(*old(self), vk_code, time),
        ensures
            *final(self) == key_down_step(*old(self), vk_code, time).0,
            r.actions@ == key_down_step(*old(self), vk_code, time).1,
            r.consumed == key_down_step(*old(self), vk_code, time).2,
    {
        if vk_code == VK_ESCAPE as u32 {
            self.tool = Tools::Arrow;
            KeyResponse { actions: Vec::new(), consumed: false }
        } else if vk_code == VK_OEM_PERIOD as u32 {
            if self.tool == Tools::Eraser {
                KeyResponse { actions: self.activate_tool(Tools::Pen), consumed: true }
            } else if self.tool != Tools::Arrow {
                KeyResponse { actions: self.activate_tool(Tools::Eraser), consumed: true }
            } else {
                KeyResponse { actions: Vec::new(), consumed: false }
            }
        } else if vk_code == VK_OEM_COMMA as u32 {
            if self.tool == Tools::ArrowSm {
                KeyResponse { actions: self.activate_tool(Tools::Pen), consumed: true }
            } else {
                KeyResponse { actions: self.activate_tool(Tools::ArrowSm), consumed: true }
            }
        } else if vk_code == VK_LEFT as u32 {
            if self.tool != Tools::Arrow {
                KeyResponse { actions: issue_undo(false), consumed: true }
            } else {
                KeyResponse { actions: Vec::new(), consumed: false }
            }
        } else if vk_code == VK_RIGHT as u32 {
            if self.tool != Tools::Arrow {
                KeyResponse { actions: issue_undo(true), consumed: true }
            } else {
                KeyResponse { actions: Vec::new(), consumed: false }
            }
        } else if vk_code == VK_LSHIFT as u32 {
            let delta = time - self.last_shift_timestamp;
            let delta_prev = time - self.last_shift_timestamp_prev;
            self.last_shift_timestamp_prev = self.last_shift_timestamp;
            self.last_shift_timestamp = time;
            if delta_prev < TRIPLE_PRESS_MS {
                self.tool = Tools::Arrow;
                KeyResponse { actions: Vec::new(), consumed: false }
            } else if delta < DOUBLE_PRESS_MS {
                self.zoom_manual_value = !self.zoom_manual_value;
                let v = self.zoom_manual_value;
                KeyResponse { actions: self.ensure_zoom(v), consumed: true }
            } else {
                self.tool = Tools::Arrow;
                KeyResponse { actions: Vec::new(), consumed: false }
            }
        } else if vk_code == VK_RSHIFT as u32 {
            let delta = time - self.last_shift_timestamp;
            self.last_shift_timestamp = time;
            if delta < DOUBLE_PRESS_MS {
                self.zoom_manual = !self.zoom_manual;
                let mut actions: Vec<Action> = Vec::new();
                if !self.zoom_manual {
                    let tool = self.tool;
                    actions = self.ensure_zoom(is_tool_zoomed_in(&tool));
                }
                actions.push(Action::ShowToast { manual: self.zoom_manual });
                KeyResponse { actions, consumed: true }
            } else {
                self.tool = Tools::Arrow;
                KeyResponse { actions: Vec::new(), consumed: false }
            }
        } else if vk_code == VK_OEM_MINUS as u32 {
            if self.tool != Tools::Arrow {
                KeyResponse { actions: self.activate_tool(Tools::Select), consumed: true }
            } else {
                KeyResponse { actions: Vec::new(), consumed: false }
            }
        } else if vk_code == VK_RCONTROL as u32 {
            let delta = time - self.last_timestamp;
            let actions = if delta < DOUBLE_PRESS_MS {
                self.activate_tool(Tools::SelectLg)
            } else {
                let next = self.get_next_tool();
                self.activate_tool(next)
            };
            self.last_timestamp = time;
            KeyResponse { actions, consumed: false }
        } else {
            KeyResponse { actions: Vec::new(), consumed: false }
        }
    }
}

} // verus!
