use vstd::prelude::*;

use crate::controller::{
    activate_step, hook_applies_to, ensure_zoom_step, initial_state, key_down_step, select_input,
    times_in_order, HotkeyState,
};
use crate::input::{ctrl_scroll_input, scroll_amount_of, undo_input, Action};
use crate::keys::{
    KEYEVENTF_EXTENDEDKEY, KEYEVENTF_KEYUP, MOUSEEVENTF_WHEEL, VK_ESCAPE, VK_LEFT, VK_LSHIFT, VK_OEM_COMMA, VK_OEM_MINUS, VK_OEM_PERIOD,
    VK_RCONTROL, VK_RIGHT, VK_RSHIFT,
};
use crate::tools::{next_tool, zooms_in, Tools};

verus! {

/// How many zoom steps a piece of input makes: `+1` for a wheel turn that
/// zooms in by one step, `-1` for one that zooms out, `0` for anything else.
pub open spec fn wheel_step(a: Action) -> int {
    match a {
        Action::Mouse { flags, data } => {
            if flags == MOUSEEVENTF_WHEEL && data == scroll_amount_of(true) {
                1
            } else if flags == MOUSEEVENTF_WHEEL && data == scroll_amount_of(false) {
                -1
            } else {
                0
            }
        },
        _ => 0,
    }
}

/// The net number of zoom steps that a sequence of input makes.
pub open spec fn net_zoom(actions: Seq<Action>) -> int
    decreases actions.len(),
{
    if actions.len() == 0 {
        0
    } else {
        wheel_step(actions[0]) + net_zoom(actions.drop_first())
    }
}

/// `1` when zoomed in, `0` when not.
pub open spec fn zoom_level(s: HotkeyState) -> int {
    if s.zoomed_in {
        1
    } else {
        0
    }
}

/// No timestamp that the state remembers is later than `time`.
pub open spec fn stamps_at_most(s: HotkeyState, time: u32) -> bool {
    &&& s.last_timestamp <= time
    &&& s.last_shift_timestamp <= time
    &&& s.last_shift_timestamp_prev <= time
}

/// The state and the input of a key press other than the hotkeys.
pub open spec fn is_hotkey(vk_code: u32) -> bool {
    ||| vk_code == VK_ESCAPE
    ||| vk_code == VK_OEM_PERIOD
    ||| vk_code == VK_OEM_COMMA
    ||| vk_code == VK_LEFT
    ||| vk_code == VK_RIGHT
    ||| vk_code == VK_LSHIFT
    ||| vk_code == VK_RSHIFT
    ||| vk_code == VK_OEM_MINUS
    ||| vk_code == VK_RCONTROL
}

proof fn lemma_net_zoom_append(a: Seq<Action>, b: Seq<Action>)
    ensures
        net_zoom(a + b) == net_zoom(a) + net_zoom(b),
    decreases a.len(),
{
    if a.len() > 0 {
        assert((a + b).drop_first() =~= a.drop_first() + b);
        lemma_net_zoom_append(a.drop_first(), b);
    } else {
        assert(a + b =~= b);
    }
}

proof fn lemma_net_zoom_small(a: Seq<Action>)
    requires
        a.len() <= 4,
    ensures
        net_zoom(a) == (if a.len() > 0 {
            wheel_step(a[0])
        } else {
            0
        }) + (if a.len() > 1 {
            wheel_step(a[1])
        } else {
            0
        }) + (if a.len() > 2 {
            wheel_step(a[2])
        } else {
            0
        }) + (if a.len() > 3 {
            wheel_step(a[3])
        } else {
            0
        }),
{
    reveal_with_fuel(net_zoom, 5);
    if a.len() > 0 {
        let a1 = a.drop_first();
        if a1.len() > 0 {
            let a2 = a1.drop_first();
            if a2.len() > 0 {
                let a3 = a2.drop_first();
                if a3.len() > 0 {
                    assert(a3.drop_first().len() == 0);
                }
            }
        }
    }
}

proof fn lemma_no_zoom_in_selection(t: Tools)
    ensures
        net_zoom(seq![Action::SaveCursor] + select_input(t)) == 0,
{
    lemma_net_zoom_small(seq![Action::SaveCursor]);
    lemma_net_zoom_small(select_input(t));
    lemma_net_zoom_append(seq![Action::SaveCursor], select_input(t));
}

proof fn lemma_ensure_zoom_net(s: HotkeyState, v: bool)
    ensures
        net_zoom(ensure_zoom_step(s, v).1) == zoom_level(ensure_zoom_step(s, v).0) - zoom_level(s),
        ensure_zoom_step(s, v).0.zoomed_in == v,
{
    lemma_net_zoom_small(ctrl_scroll_input(scroll_amount_of(v)));
    lemma_net_zoom_small(Seq::empty());
}

proof fn lemma_activate_net(s: HotkeyState, t: Tools)
    ensures
        net_zoom(activate_step(s, t).1) == zoom_level(activate_step(s, t).0) - zoom_level(s),
{
    let zoom = if s.zoom_manual {
        (s, Seq::<Action>::empty())
    } else {
        ensure_zoom_step(s, zooms_in(t))
    };
    lemma_ensure_zoom_net(s, zooms_in(t));
    lemma_net_zoom_small(Seq::<Action>::empty());
    lemma_no_zoom_in_selection(t);
    lemma_net_zoom_append(seq![Action::SaveCursor] + select_input(t), zoom.1);
}

/// The zoom input that every key press sends is exactly the change in the
/// zoom level that the state records: one step in when it goes from zoomed
/// out to zoomed in, one step out the other way, none when it stays. So the
/// state always knows how far the canvas is zoomed.
pub proof fn law_zoom_input_matches_zoom_level(s: HotkeyState, vk_code: u32, time: u32)
    requires
        times_in_order(s, vk_code, time),
    ensures
        net_zoom(key_down_step(s, vk_code, time).1) == zoom_level(key_down_step(s, vk_code, time).0)
            - zoom_level(s),
{
    reveal_with_fuel(net_zoom, 2);
    lemma_net_zoom_small(undo_input(false));
    lemma_net_zoom_small(undo_input(true));
    lemma_activate_net(s, Tools::Pen);
    lemma_activate_net(s, Tools::Eraser);
    lemma_activate_net(s, Tools::ArrowSm);
    lemma_activate_net(s, Tools::Select);
    lemma_activate_net(s, Tools::SelectLg);
    lemma_activate_net(s, next_tool(s.tool));
    if vk_code == VK_LSHIFT {
        let s1 = HotkeyState {
            last_shift_timestamp_prev: s.last_shift_timestamp,
            last_shift_timestamp: time,
            zoom_manual_value: !s.zoom_manual_value,
            ..s
        };
        lemma_ensure_zoom_net(s1, !s.zoom_manual_value);
    } else if vk_code == VK_RSHIFT {
        let s2 = HotkeyState { last_shift_timestamp: time, zoom_manual: !s.zoom_manual, ..s };
        let z = if !s.zoom_manual {
            (s2, Seq::<Action>::empty())
        } else {
            ensure_zoom_step(s2, zooms_in(s.tool))
        };
        lemma_ensure_zoom_net(s2, zooms_in(s.tool));
        lemma_net_zoom_small(seq![Action::ShowToast { manual: !s.zoom_manual }]);
        lemma_net_zoom_append(z.1, seq![Action::ShowToast { manual: !s.zoom_manual }]);
        assert(z.1.push(Action::ShowToast { manual: !s.zoom_manual }) =~= z.1 + seq![
            Action::ShowToast { manual: !s.zoom_manual },
        ]);
    }
}

/// The zoom the user last asked for always equals the zoom the canvas has:
/// it holds at the start, and every key press keeps it.
pub proof fn law_manual_zoom_value_tracks_zoom(s: HotkeyState, vk_code: u32, time: u32)
    requires
        s.zoom_manual_value == s.zoomed_in,
        times_in_order(s, vk_code, time),
    ensures
        initial_state().zoom_manual_value == initial_state().zoomed_in,
        key_down_step(s, vk_code, time).0.zoom_manual_value == key_down_step(
            s,
            vk_code,
            time,
        ).0.zoomed_in,
{
}

/// With a clock that never runs backwards the timing requirement of a key
/// press is always met: it holds when no remembered time is later than the
/// press, a press remembers no time later than its own, and the start state
/// remembers none at all.
pub proof fn law_monotone_clock_meets_timing(
    s: HotkeyState,
    vk_code: u32,
    time: u32,
    later: u32,
)
    requires
        stamps_at_most(s, time),
        time <= later,
    ensures
        times_in_order(s, vk_code, time),
        stamps_at_most(key_down_step(s, vk_code, time).0, time),
        stamps_at_most(key_down_step(s, vk_code, time).0, later),
        stamps_at_most(initial_state(), time),
{
}

/// Escape goes back to the arrow and changes nothing else; the key is passed
/// on and no input is sent.
pub proof fn law_escape_resets_to_arrow(s: HotkeyState, time: u32)
    ensures
        key_down_step(s, VK_ESCAPE as u32, time) == (
            HotkeyState { tool: Tools::Arrow, ..s },
            Seq::<Action>::empty(),
            false,
        ),
{
}

/// A key that is not a hotkey changes nothing, sends nothing and is passed
/// on.
pub proof fn law_other_keys_pass_through(s: HotkeyState, vk_code: u32, time: u32)
    requires
        !is_hotkey(vk_code),
    ensures
        key_down_step(s, vk_code, time) == (s, Seq::<Action>::empty(), false),
{
}

/// `.` switches between pen and eraser: each press is swallowed, and two
/// presses from either of them come back to it. With the arrow active the
/// key is passed on and nothing changes.
pub proof fn law_period_toggles_pen_and_eraser(s: HotkeyState, t1: u32, t2: u32)
    ensures
        s.tool == Tools::Pen ==> key_down_step(s, VK_OEM_PERIOD as u32, t1).0.tool
            == Tools::Eraser,
        s.tool == Tools::Eraser ==> key_down_step(s, VK_OEM_PERIOD as u32, t1).0.tool
            == Tools::Pen,
        (s.tool == Tools::Pen || s.tool == Tools::Eraser) ==> {
            let once = key_down_step(s, VK_OEM_PERIOD as u32, t1);
            let twice = key_down_step(once.0, VK_OEM_PERIOD as u32, t2);
            &&& once.2
            &&& twice.2
            &&& twice.0.tool == s.tool
        },
        s.tool != Tools::Arrow ==> key_down_step(s, VK_OEM_PERIOD as u32, t1).2,
        s.tool == Tools::Arrow ==> key_down_step(s, VK_OEM_PERIOD as u32, t1) == (
            s,
            Seq::<Action>::empty(),
            false,
        ),
{
}

/// `,` selects the small arrow, or the pen when the small arrow is already
/// active; it is always swallowed, and two presses from the small arrow or
/// the pen come back to it.
pub proof fn law_comma_toggles_small_arrow(s: HotkeyState, t1: u32, t2: u32)
    ensures
        key_down_step(s, VK_OEM_COMMA as u32, t1).2,
        key_down_step(s, VK_OEM_COMMA as u32, t1).0.tool == (if s.tool == Tools::ArrowSm {
            Tools::Pen
        } else {
            Tools::ArrowSm
        }),
        (s.tool == Tools::ArrowSm || s.tool == Tools::Pen) ==> key_down_step(
            key_down_step(s, VK_OEM_COMMA as u32, t1).0,
            VK_OEM_COMMA as u32,
            t2,
        ).0.tool == s.tool,
{
}

/// The left and right arrows undo and redo, except with the arrow tool:
/// then they are passed on. Undo and redo leave the state as it is.
pub proof fn law_arrows_undo_and_redo(s: HotkeyState, time: u32)
    ensures
        s.tool != Tools::Arrow ==> key_down_step(s, VK_LEFT as u32, time) == (
            s,
            undo_input(false),
            true,
        ),
        s.tool != Tools::Arrow ==> key_down_step(s, VK_RIGHT as u32, time) == (
            s,
            undo_input(true),
            true,
        ),
        s.tool == Tools::Arrow ==> key_down_step(s, VK_LEFT as u32, time) == (
            s,
            Seq::<Action>::empty(),
            false,
        ),
        s.tool == Tools::Arrow ==> key_down_step(s, VK_RIGHT as u32, time) == (
            s,
            Seq::<Action>::empty(),
            false,
        ),
{
}

/// `-` draws a selection on the zoomed-in canvas: except with the arrow
/// tool, it selects the selection tool, is swallowed, and under automatic
/// zoom leaves the canvas zoomed in. With the arrow it is passed on.
pub proof fn law_minus_selects_zoomed_in(s: HotkeyState, time: u32)
    ensures
        s.tool != Tools::Arrow ==> {
            let r = key_down_step(s, VK_OEM_MINUS as u32, time);
            &&& r.0.tool == Tools::Select
            &&& r.2
            &&& !s.zoom_manual ==> r.0.zoomed_in
        },
        s.tool == Tools::Arrow ==> key_down_step(s, VK_OEM_MINUS as u32, time) == (
            s,
            Seq::<Action>::empty(),
            false,
        ),
{
}

/// Right control switches between the arrow and the pen: a single press
/// (200 ms or more after the last one) goes from one to the other, and two
/// single presses come back. The key is always passed on.
pub proof fn law_right_control_toggles_arrow_and_pen(s: HotkeyState, t1: u32, t2: u32)
    requires
        s.tool == Tools::Arrow || s.tool == Tools::Pen,
        s.last_timestamp + 200 <= t1,
        t1 + 200 <= t2,
    ensures
        key_down_step(s, VK_RCONTROL as u32, t1).0.tool == (if s.tool == Tools::Arrow {
            Tools::Pen
        } else {
            Tools::Arrow
        }),
        !key_down_step(s, VK_RCONTROL as u32, t1).2,
        key_down_step(key_down_step(s, VK_RCONTROL as u32, t1).0, VK_RCONTROL as u32, t2).0.tool
            == s.tool,
{
}

/// A double press of right control (within 200 ms) draws a selection on the
/// zoomed-out canvas: it selects the large selection tool and, under
/// automatic zoom, leaves the canvas zoomed out. The key is passed on.
pub proof fn law_double_right_control_selects_zoomed_out(s: HotkeyState, time: u32)
    requires
        s.last_timestamp <= time < s.last_timestamp + 200,
    ensures
        key_down_step(s, VK_RCONTROL as u32, time).0.tool == Tools::SelectLg,
        !s.zoom_manual ==> !key_down_step(s, VK_RCONTROL as u32, time).0.zoomed_in,
        !key_down_step(s, VK_RCONTROL as u32, time).2,
{
}

/// A double press of left shift (within 200 ms, and not a third press
/// within 400 ms) zooms by hand: the canvas goes to the other zoom level
/// with exactly one zoom step, and the key is swallowed.
pub proof fn law_double_left_shift_toggles_zoom(s: HotkeyState, time: u32)
    requires
        s.zoom_manual_value == s.zoomed_in,
        s.last_shift_timestamp <= time < s.last_shift_timestamp + 200,
        s.last_shift_timestamp_prev + 400 <= time,
    ensures
        key_down_step(s, VK_LSHIFT as u32, time).0.zoomed_in == !s.zoomed_in,
        key_down_step(s, VK_LSHIFT as u32, time).1 == ctrl_scroll_input(
            scroll_amount_of(!s.zoomed_in),
        ),
        key_down_step(s, VK_LSHIFT as u32, time).2,
{
}

/// A double press of right shift (within 200 ms) switches between manual
/// and automatic zoom and ends by showing the new mode. Switching to
/// automatic zoom brings the canvas to the zoom of the active tool. Two such
/// switches restore the mode.
pub proof fn law_double_right_shift_toggles_zoom_mode(s: HotkeyState, t1: u32, t2: u32)
    requires
        s.last_shift_timestamp <= t1 < s.last_shift_timestamp + 200,
        t1 <= t2 < t1 + 200,
    ensures
        ({
            let r = key_down_step(s, VK_RSHIFT as u32, t1);
            &&& r.0.zoom_manual == !s.zoom_manual
            &&& r.2
            &&& r.1.len() > 0
            &&& r.1.last() == Action::ShowToast { manual: !s.zoom_manual }
            &&& s.zoom_manual ==> r.0.zoomed_in == zooms_in(s.tool)
        }),
        key_down_step(key_down_step(s, VK_RSHIFT as u32, t1).0, VK_RSHIFT as u32, t2).0.zoom_manual
            == s.zoom_manual,
{
}

/// Under automatic zoom, activating a tool leaves the canvas at that tool's
/// zoom; under manual zoom, activation never touches the zoom.
pub proof fn law_activation_follows_zoom_mode(s: HotkeyState, t: Tools)
    ensures
        !s.zoom_manual ==> activate_step(s, t).0.zoomed_in == zooms_in(t),
        s.zoom_manual ==> activate_step(s, t).0.zoomed_in == s.zoomed_in,
        activate_step(s, t).0.tool == t,
{
}

/// Bringing the zoom to a level twice does no more than doing it once.
pub proof fn law_ensure_zoom_is_idempotent(s: HotkeyState, v: bool)
    ensures
        ensure_zoom_step(s, v).0.zoomed_in == v,
        ensure_zoom_step(ensure_zoom_step(s, v).0, v) == (
            ensure_zoom_step(s, v).0,
            Seq::<Action>::empty(),
        ),
{
}

/// A zoom step out undoes a zoom step in: the two wheel amounts add up to
/// zero in 32-bit arithmetic.
pub proof fn law_zoom_steps_cancel()
    ensures
        scroll_amount_of(true) + scroll_amount_of(false) == 0x1_0000_0000,
{
}

/// Picking a clicked tool: remember the cursor, click the toolbar button at
/// `(x, 78)` with the left button, and put the cursor back.
pub open spec fn toolbar_click_at(x: i32) -> Seq<Action> {
    seq![
        Action::SaveCursor,
        Action::MoveCursor { x, y: 78 },
        Action::Mouse { flags: 2, data: 0 },
        Action::Mouse { flags: 4, data: 0 },
        Action::RestoreCursor,
    ]
}

/// Picking one of the arrows: remember the cursor, then tap escape (scan
/// code `0xb8`, extended key, then extended key released).
pub open spec fn escape_tap() -> Seq<Action> {
    seq![
        Action::SaveCursor,
        Action::Key { vk: 0x1B, scan: 0xb8, flags: 1 },
        Action::Key { vk: 0x1B, scan: 0xb8, flags: 3 },
    ]
}

/// The input that opens every activation of `t`, whatever the state: escape
/// for the two arrows, a click on the selection (x = 147), eraser (228) or
/// pen (267) button for the others.
pub open spec fn opening_input(t: Tools) -> Seq<Action> {
    match t {
        Tools::Arrow | Tools::ArrowSm => escape_tap(),
        Tools::Select | Tools::SelectLg => toolbar_click_at(147),
        Tools::Eraser => toolbar_click_at(228),
        Tools::Pen => toolbar_click_at(267),
    }
}

/// Activating a tool always picks it in the application, even when it is
/// already the active tool: the input starts with the tool's own escape tap
/// or button click, which depends on the tool alone, and what follows is
/// either nothing or one zoom step (control down, wheel, control up).
pub proof fn law_activation_always_picks_the_tool(s: HotkeyState, t: Tools)
    ensures
        ({
            let a = activate_step(s, t).1;
            let p = opening_input(t);
            &&& a.len() == p.len() || a.len() == p.len() + 3
            &&& a.subrange(0, p.len() as int) == p
        }),
{
    assert(KEYEVENTF_EXTENDEDKEY | KEYEVENTF_KEYUP == 3u32) by (bit_vector)
        requires
            KEYEVENTF_EXTENDEDKEY == 1u32,
            KEYEVENTF_KEYUP == 2u32,
    ;
    let a = activate_step(s, t).1;
    let p = opening_input(t);
    assert(seq![Action::SaveCursor] + select_input(t) =~= p);
    assert(a.subrange(0, p.len() as int) =~= p);
}

/// `.` from any tool other than the arrow and the eraser activates the
/// eraser (clicking the eraser button at x = 228); only from the eraser does
/// it go to the pen (button at x = 267). Either way the key is swallowed.
pub proof fn law_period_selects_eraser_from_any_other_tool(s: HotkeyState, time: u32)
    requires
        s.tool != Tools::Arrow,
    ensures
        ({
            let r = key_down_step(s, 0xBE, time);
            &&& r.2
            &&& r.0.tool == (if s.tool == Tools::Eraser {
                Tools::Pen
            } else {
                Tools::Eraser
            })
            &&& r.1.subrange(0, 5) == toolbar_click_at(
                if s.tool == Tools::Eraser {
                    267
                } else {
                    228
                },
            )
        }),
{
    let t = if s.tool == Tools::Eraser {
        Tools::Pen
    } else {
        Tools::Eraser
    };
    law_activation_always_picks_the_tool(s, t);
}

/// A single right-control press (200 ms or more after the last one) moves
/// from the pen or the large selection to the arrow, and from every other
/// tool (arrow, small arrow, selection, eraser) to the pen. The key is
/// passed on and its time remembered.
pub proof fn law_single_right_control_cycles(s: HotkeyState, time: u32)
    requires
        s.last_timestamp + 200 <= time,
    ensures
        ({
            let r = key_down_step(s, 0xA3, time);
            &&& !r.2
            &&& r.0.last_timestamp == time
            &&& r.0.tool == (if s.tool == Tools::Pen || s.tool == Tools::SelectLg {
                Tools::Arrow
            } else {
                Tools::Pen
            })
            &&& (s.tool == Tools::Eraser || s.tool == Tools::Select || s.tool == Tools::ArrowSm
                || s.tool == Tools::Arrow) ==> r.0.tool == Tools::Pen
        }),
{
}

/// Only a double press of right shift changes the zoom mode: every other key
/// (left shift included) leaves manual or automatic zoom as it was, and a
/// right-shift press changes it exactly when it comes within 200 ms of the
/// last shift press.
pub proof fn law_only_double_right_shift_changes_zoom_mode(s: HotkeyState, vk_code: u32, time: u32)
    requires
        times_in_order(s, vk_code, time),
    ensures
        vk_code != 0xA1 ==> key_down_step(s, vk_code, time).0.zoom_manual == s.zoom_manual,
        vk_code == 0xA1 ==> (key_down_step(s, vk_code, time).0.zoom_manual != s.zoom_manual
            <==> time < s.last_shift_timestamp + 200),
{
}

/// The keyboard hook looks only at key-down messages (`0x0100`) with a
/// hook code that is not negative; every other message, such as a system
/// key-down (`0x0104`) or a key release (`0x0101`), is passed on.
pub proof fn law_hook_applies_only_to_key_down(n_code: i32, wparam: usize)
    ensures
        hook_applies_to(n_code, wparam) <==> (n_code >= 0 && #[verifier::truncate] (wparam as u32)
            == 0x100),
        #[verifier::truncate] (wparam as u32) == 0x104 ==> !hook_applies_to(n_code, wparam),
        #[verifier::truncate] (wparam as u32) == 0x101 ==> !hook_applies_to(n_code, wparam),
{
}

} // verus!
