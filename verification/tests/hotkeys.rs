use ink_hotkeys::controller::{hook_applies, HotkeyState, KeyResponse};
use ink_hotkeys::events::{message_loop_step, mouse_event_is_reported, LoopStep};
use ink_hotkeys::input::{
    click, issue_undo, scroll_amount, send_ctrl_scroll_zoom, send_keypress, set_zoom_to_default,
    undo_key, Action,
};
use ink_hotkeys::keys::{
    VK_ESCAPE, VK_LEFT, VK_LSHIFT, VK_OEM_COMMA, VK_OEM_MINUS, VK_OEM_PERIOD, VK_RCONTROL,
    VK_RIGHT, VK_RSHIFT,
};
use ink_hotkeys::overlay::{centered_origin, layered_style, overlay_toast_register, toast_text, ClientRect};
use ink_hotkeys::tools::{get_next_tool, is_tool_base, is_tool_zoomed_in, Tools};

fn key(vk: u8, scan: u8, flags: u32) -> Action {
    Action::Key { vk, scan, flags }
}

fn zoom_in_input() -> Vec<Action> {
    vec![
        key(0xA2, 0, 0),
        Action::Mouse { flags: 0x0800, data: 1680 },
        key(0xA2, 0, 2),
    ]
}

fn zoom_out_input() -> Vec<Action> {
    vec![
        key(0xA2, 0, 0),
        Action::Mouse { flags: 0x0800, data: 4294965616 },
        key(0xA2, 0, 2),
    ]
}

fn click_and_return(x: i32) -> Vec<Action> {
    vec![
        Action::SaveCursor,
        Action::MoveCursor { x, y: 78 },
        Action::Mouse { flags: 2, data: 0 },
        Action::Mouse { flags: 4, data: 0 },
        Action::RestoreCursor,
    ]
}

fn escape_press() -> Vec<Action> {
    vec![Action::SaveCursor, key(0x1B, 0xb8, 1), key(0x1B, 0xb8, 3)]
}

fn press(s: &mut HotkeyState, vk: u8, time: u32) -> KeyResponse {
    s.key_down(vk as u32, time)
}

fn with_tool(tool: Tools) -> HotkeyState {
    let mut s = HotkeyState::new();
    s.tool = tool;
    s
}

#[test]
fn tool_tables() {
    let all = [Tools::Arrow, Tools::ArrowSm, Tools::Select, Tools::Eraser, Tools::Pen, Tools::SelectLg];
    let zoomed = [false, true, true, true, true, false];
    let base = [false, false, true, false, true, true];
    let next = [Tools::Pen, Tools::Pen, Tools::Pen, Tools::Pen, Tools::Arrow, Tools::Arrow];
    for i in 0..all.len() {
        assert_eq!(is_tool_zoomed_in(&all[i]), zoomed[i]);
        assert_eq!(is_tool_base(&all[i]), base[i]);
        assert_eq!(get_next_tool(all[i]), next[i]);
        assert_eq!(with_tool(all[i]).get_next_tool(), next[i]);
    }
}

#[test]
fn initial_state_is_arrow_zoomed_out() {
    let s = HotkeyState::new();
    assert_eq!(s.tool, Tools::Arrow);
    assert_eq!(s.base_tool, Tools::Arrow);
    assert_eq!((s.last_timestamp, s.last_shift_timestamp, s.last_shift_timestamp_prev), (0, 0, 0));
    assert!(!s.zoomed_in && !s.zoom_manual && !s.zoom_manual_value);
}

#[test]
fn scroll_amounts_are_plus_and_minus_1680() {
    assert_eq!(scroll_amount(true), 1680);
    assert_eq!(scroll_amount(false), 4294965616);
    assert_eq!(scroll_amount(false) as i32, -1680);
    assert_eq!(scroll_amount(true).wrapping_add(scroll_amount(false)), 0);
}

#[test]
fn input_sequences() {
    assert_eq!(undo_key(false), 0x5A);
    assert_eq!(undo_key(true), 0x59);
    assert_eq!(
        click(10, -3),
        vec![
            Action::MoveCursor { x: 10, y: -3 },
            Action::Mouse { flags: 2, data: 0 },
            Action::Mouse { flags: 4, data: 0 },
        ]
    );
    assert_eq!(send_keypress(0x41), vec![key(0x41, 0xb8, 1), key(0x41, 0xb8, 3)]);
    assert_eq!(send_ctrl_scroll_zoom(1680), zoom_in_input());
    assert_eq!(
        issue_undo(false),
        vec![key(0xA2, 0, 1), key(0x5A, 0, 0), key(0x5A, 0, 2), key(0xA2, 0, 3)]
    );
    assert_eq!(
        issue_undo(true),
        vec![key(0xA2, 0, 1), key(0x59, 0, 0), key(0x59, 0, 2), key(0xA2, 0, 3)]
    );
    assert_eq!(set_zoom_to_default(), vec![0xA4u8]);
}

#[test]
fn activate_tool_clicks_toolbar_and_zooms() {
    let mut s = HotkeyState::new();
    let mut expected = click_and_return(267);
    expected.extend(zoom_in_input());
    assert_eq!(s.activate_tool(Tools::Pen), expected);
    assert_eq!(s.tool, Tools::Pen);
    assert_eq!(s.base_tool, Tools::Arrow);
    assert!(s.zoomed_in && s.zoom_manual_value);

    // eraser: zoom already right, not a base tool
    assert_eq!(s.activate_tool(Tools::Eraser), click_and_return(228));
    assert_eq!(s.base_tool, Tools::Arrow);

    // large selection: base tool remembers the eraser, zooms out
    let mut expected = click_and_return(147);
    expected.extend(zoom_out_input());
    assert_eq!(s.activate_tool(Tools::SelectLg), expected);
    assert_eq!(s.base_tool, Tools::Eraser);
    assert!(!s.zoomed_in);

    // small arrow: escape, zoom in
    let mut expected = escape_press();
    expected.extend(zoom_in_input());
    assert_eq!(s.activate_tool(Tools::ArrowSm), expected);
}

#[test]
fn activation_under_manual_zoom_keeps_zoom() {
    let mut s = HotkeyState::new();
    s.zoom_manual = true;
    assert_eq!(s.activate_tool(Tools::Select), click_and_return(147));
    assert!(!s.zoomed_in);
    assert_eq!(s.tool, Tools::Select);
}

#[test]
fn ensure_zoom_twice_scrolls_once() {
    let mut s = HotkeyState::new();
    assert_eq!(s.ensure_zoom(true), zoom_in_input());
    assert_eq!(s.ensure_zoom(true), vec![]);
    assert_eq!(s.ensure_zoom(false), zoom_out_input());
    assert!(!s.zoomed_in && !s.zoom_manual_value);
}

#[test]
fn escape_resets_to_arrow() {
    let mut s = with_tool(Tools::Eraser);
    s.zoomed_in = true;
    let before = s;
    let r = press(&mut s, VK_ESCAPE, 5);
    assert_eq!(r, KeyResponse { actions: vec![], consumed: false });
    assert_eq!(s, HotkeyState { tool: Tools::Arrow, ..before });
}

#[test]
fn period_toggles_pen_and_eraser() {
    let mut s = with_tool(Tools::Pen);
    s.zoomed_in = true;
    s.zoom_manual_value = true;
    let r = press(&mut s, VK_OEM_PERIOD, 10);
    assert!(r.consumed);
    assert_eq!(r.actions, click_and_return(228));
    assert_eq!(s.tool, Tools::Eraser);
    let r = press(&mut s, VK_OEM_PERIOD, 20);
    assert!(r.consumed);
    assert_eq!(r.actions, click_and_return(267));
    assert_eq!(s.tool, Tools::Pen);

    let mut a = HotkeyState::new();
    let before = a;
    assert_eq!(press(&mut a, VK_OEM_PERIOD, 10), KeyResponse { actions: vec![], consumed: false });
    assert_eq!(a, before);
}

#[test]
fn comma_toggles_small_arrow() {
    let mut s = HotkeyState::new();
    let r = press(&mut s, VK_OEM_COMMA, 10);
    assert!(r.consumed);
    let mut expected = escape_press();
    expected.extend(zoom_in_input());
    assert_eq!(r.actions, expected);
    assert_eq!(s.tool, Tools::ArrowSm);
    let r = press(&mut s, VK_OEM_COMMA, 20);
    assert!(r.consumed);
    assert_eq!(r.actions, click_and_return(267));
    assert_eq!(s.tool, Tools::Pen);
}

#[test]
fn arrows_undo_and_redo_except_in_arrow_mode() {
    let mut s = with_tool(Tools::Pen);
    let before = s;
    assert_eq!(press(&mut s, VK_LEFT, 1), KeyResponse { actions: issue_undo(false), consumed: true });
    assert_eq!(press(&mut s, VK_RIGHT, 2), KeyResponse { actions: issue_undo(true), consumed: true });
    assert_eq!(s, before);
    let mut a = HotkeyState::new();
    assert_eq!(press(&mut a, VK_LEFT, 1), KeyResponse { actions: vec![], consumed: false });
    assert_eq!(press(&mut a, VK_RIGHT, 2), KeyResponse { actions: vec![], consumed: false });
    assert_eq!(a, HotkeyState::new());
}

#[test]
fn minus_selects_zoomed_in_except_in_arrow_mode() {
    let mut s = with_tool(Tools::Eraser);
    let r = press(&mut s, VK_OEM_MINUS, 10);
    assert!(r.consumed);
    let mut expected = click_and_return(147);
    expected.extend(zoom_in_input());
    assert_eq!(r.actions, expected);
    assert_eq!(s.tool, Tools::Select);
    assert!(s.zoomed_in);
    let mut a = HotkeyState::new();
    assert_eq!(press(&mut a, VK_OEM_MINUS, 10), KeyResponse { actions: vec![], consumed: false });
}

#[test]
fn right_control_toggles_arrow_and_pen() {
    let mut s = HotkeyState::new();
    let r = press(&mut s, VK_RCONTROL, 1000);
    assert!(!r.consumed);
    let mut expected = click_and_return(267);
    expected.extend(zoom_in_input());
    assert_eq!(r.actions, expected);
    assert_eq!(s.tool, Tools::Pen);
    assert_eq!(s.last_timestamp, 1000);
    let r = press(&mut s, VK_RCONTROL, 1500);
    assert!(!r.consumed);
    let mut expected = escape_press();
    expected.extend(zoom_out_input());
    assert_eq!(r.actions, expected);
    assert_eq!(s.tool, Tools::Arrow);
    assert_eq!(s.base_tool, Tools::Arrow);
}

#[test]
fn double_right_control_selects_zoomed_out() {
    let mut s = HotkeyState::new();
    press(&mut s, VK_RCONTROL, 1000);
    assert_eq!(s.tool, Tools::Pen);
    let r = press(&mut s, VK_RCONTROL, 1199);
    assert!(!r.consumed);
    let mut expected = click_and_return(147);
    expected.extend(zoom_out_input());
    assert_eq!(r.actions, expected);
    assert_eq!(s.tool, Tools::SelectLg);
    assert_eq!(s.base_tool, Tools::Pen);
    assert!(!s.zoomed_in);
    // exactly 200 ms apart is not a double press
    let r = press(&mut s, VK_RCONTROL, 1399);
    assert_eq!(s.tool, Tools::Arrow);
    assert_eq!(r.actions, escape_press());
}

#[test]
fn double_left_shift_toggles_zoom() {
    let mut s = with_tool(Tools::Pen);
    let r = press(&mut s, VK_LSHIFT, 1000);
    assert_eq!(r, KeyResponse { actions: vec![], consumed: false });
    assert_eq!(s.tool, Tools::Arrow);
    assert_eq!((s.last_shift_timestamp, s.last_shift_timestamp_prev), (1000, 0));
    let r = press(&mut s, VK_LSHIFT, 1100);
    assert_eq!(r, KeyResponse { actions: zoom_in_input(), consumed: true });
    assert!(s.zoomed_in && s.zoom_manual_value);
    assert_eq!((s.last_shift_timestamp, s.last_shift_timestamp_prev), (1100, 1000));
    // a third press within 400 ms of the first is passed on
    let r = press(&mut s, VK_LSHIFT, 1150);
    assert_eq!(r, KeyResponse { actions: vec![], consumed: false });
    assert!(s.zoomed_in);
    // a fresh double press zooms back out
    press(&mut s, VK_LSHIFT, 3000);
    let r = press(&mut s, VK_LSHIFT, 3100);
    assert_eq!(r, KeyResponse { actions: zoom_out_input(), consumed: true });
    assert!(!s.zoomed_in);
}

#[test]
fn double_right_shift_toggles_zoom_mode() {
    let mut s = with_tool(Tools::Pen);
    let r = press(&mut s, VK_RSHIFT, 1000);
    assert_eq!(r, KeyResponse { actions: vec![], consumed: false });
    assert_eq!(s.tool, Tools::Arrow);
    s.tool = Tools::Pen;
    let r = press(&mut s, VK_RSHIFT, 1050);
    assert_eq!(r, KeyResponse { actions: vec![Action::ShowToast { manual: true }], consumed: true });
    assert!(s.zoom_manual);
    let r = press(&mut s, VK_RSHIFT, 1100);
    let mut expected = zoom_in_input();
    expected.push(Action::ShowToast { manual: false });
    assert_eq!(r, KeyResponse { actions: expected, consumed: true });
    assert!(!s.zoom_manual && s.zoomed_in);
}

#[test]
fn other_keys_pass_through() {
    let mut s = with_tool(Tools::Select);
    let before = s;
    for vk in [0x41u32, 0x10, 0xA2, 0x1C, 0x1_00BE] {
        assert_eq!(s.key_down(vk, 77), KeyResponse { actions: vec![], consumed: false });
    }
    assert_eq!(s, before);
}

#[test]
fn timing_check() {
    let mut s = HotkeyState::new();
    s.last_shift_timestamp = 50;
    s.last_timestamp = 70;
    assert!(!s.times_in_order(VK_LSHIFT as u32, 40));
    assert!(!s.times_in_order(VK_RSHIFT as u32, 40));
    assert!(s.times_in_order(VK_RCONTROL as u32, 70));
    assert!(!s.times_in_order(VK_RCONTROL as u32, 69));
    assert!(s.times_in_order(0x41, 0));
}

#[test]
fn keyboard_hook_filter() {
    assert!(hook_applies(0, 0x100));
    assert!(!hook_applies(-1, 0x100));
    assert!(!hook_applies(0, 0x101));
    assert!(hook_applies(3, 0x100 + (1usize << 32)) || usize::BITS == 32);
}

#[test]
fn mouse_hook_filter() {
    for m in [0x203usize, 0x201, 0x202, 0x209, 0x207, 0x208, 0x21, 0x2A1, 0x20E, 0x2A3, 0x200, 0x20A, 0x84, 0xA3, 0xA1, 0xA2] {
        assert!(mouse_event_is_reported(0, m));
        assert!(!mouse_event_is_reported(-1, m));
    }
    assert!(!mouse_event_is_reported(0, 0x100));
    assert!(!mouse_event_is_reported(0, 0x204));
}

#[test]
fn message_loop_steps() {
    assert_eq!(message_loop_step(-1, 0x51), LoopStep::Failed);
    assert_eq!(message_loop_step(0, 0x51), LoopStep::Finished);
    assert_eq!(message_loop_step(1, 0x51), LoopStep::Dispatch { then_stop: true });
    assert_eq!(message_loop_step(5, 0x12), LoopStep::Dispatch { then_stop: false });
    assert_eq!(message_loop_step(-2, 0x100), LoopStep::Dispatch { then_stop: false });
}

#[test]
fn toast_text_is_padded_label() {
    let m = toast_text(true);
    assert_eq!(m.len(), 6 + 108);
    assert_eq!(m, format!("manual{}", " ".repeat(108)));
    let a = toast_text(false);
    assert_eq!(a.len(), 4 + 112);
    assert_eq!(a, format!("auto{}", " ".repeat(112)));
    overlay_toast_register();
}

#[test]
fn toast_is_centered() {
    let rect = ClientRect { left: 0, top: 0, right: 134, bottom: 51 };
    assert_eq!(centered_origin(1920, 1080, rect), (893, 514));
    let odd = ClientRect { left: 10, top: 5, right: 21, bottom: 20 };
    assert_eq!(centered_origin(100, 100, odd), (44, 42));
    // a window wider than the screen: division rounds toward zero
    let wide = ClientRect { left: 0, top: 0, right: 205, bottom: 300 };
    assert_eq!(centered_origin(100, 100, wide), (-52, -100));
    assert_eq!(layered_style(0x80), 0x80080);
    assert_eq!(layered_style(0x80000), 0x80000);
}
