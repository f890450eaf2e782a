use vstd::prelude::*;

use crate::keys::WS_EX_LAYERED;

verus! {

/// The toast text is padded to this many two-space units, minus its label.
pub const TOAST_WIDTH: usize = 60;

/// The client rectangle of a window, in pixels.
#[derive(Clone, Copy, Debug, PartialEq, Eq, Structural)]
pub struct ClientRect {
    pub left: i32,
    pub top: i32,
    pub right: i32,
    pub bottom: i32,
}

/// The name of a zoom mode.
pub open spec fn zoom_mode_label(manual: bool) -> Seq<char> {
    if manual {
        seq!['m', 'a', 'n', 'u', 'a', 'l']
    } else {
        seq!['a', 'u', 't', 'o']
    }
}

/// `n` spaces.
pub open spec fn spaces(n: nat) -> Seq<char> {
    Seq::new(n, |i: int| ' ')
}

/// The text of the toast that names the zoom mode: the label, followed by
/// two spaces for each of the `60 - |label|` padding units.
pub open spec fn toast_text_of(manual: bool) -> Seq<char> {
    let label = zoom_mode_label(manual);
    label + spaces((2 * (TOAST_WIDTH - label.len())) as nat)
}

/// Half of `v`, rounded toward zero (integer division by two).
pub open spec fn half_toward_zero(v: int) -> int {
    if v >= 0 {
        v / 2
    } else {
        -((-v) / 2)
    }
}

/// `v` fits in an `i32`.
pub open spec fn fits_i32(v: int) -> bool {
    i32::MIN <= v <= i32::MAX
}

/// Where a window `lo..hi` wide starts so that it sits in the middle of a
/// screen `screen` wide.
pub open spec fn centered_start(screen: int, lo: int, hi: int) -> int {
    half_toward_zero(screen - (hi - lo))
}

/// The widths and heights computed while centering stay within `i32`.
pub open spec fn centering_fits(screen_width: i32, screen_height: i32, rect: ClientRect) -> bool {
    &&& fits_i32(rect.right - rect.left)
    &&& fits_i32(rect.bottom - rect.top)
    &&& fits_i32(screen_width - (rect.right - rect.left))
    &&& fits_i32(screen_height - (rect.bottom - rect.top))
}

/// The text shown in the toast for the given zoom mode.
pub fn toast_text(manual: bool) -> (r: String)
    ensures
        r@ == toast_text_of(manual),
{
    let mut r = if manual {
        String::from_str("manual")
    } else {
        String::from_str("auto")
    };
    proof {
        reveal_strlit("manual");
        reveal_strlit("auto");
        reveal_strlit("  ");
    }
    let label_len: usize = if manual {
        6
    } else {
        4
    };
    assert(r@ == zoom_mode_label(manual));
    let units: usize = TOAST_WIDTH - label_len;
    let mut i: usize = 0;
    while i < units
        invariant
            i <= units,
            units == TOAST_WIDTH - label_len,
            label_len == zoom_mode_label(manual).len(),
            r@ == zoom_mode_label(manual) + spaces((2 * i) as nat),
            "  "@ == seq![' ', ' '],
        decreases units - i,
    {
        r.append("  ");
        assert(spaces((2 * i) as nat) + seq![' ', ' '] =~= spaces((2 * (i + 1)) as nat));
        i = i + 1;
    }
    r
}

/// Half of `v`, rounded toward zero, as integer division does it.
fn half_toward_zero_exec(v: i64) -> (r: i64)
    requires
        v > i64::MIN,
    ensures
        r == half_toward_zero(v as int),
{
    if v >= 0 {
        let u: u64 = v as u64;
        (u / 2) as i64
    } else {
        let u: u64 = (-v) as u64;
        -((u / 2) as i64)
    }
}

/// Where to put a toast window with client rectangle `rect` so that it sits
/// in the middle of a `screen_width` by `screen_height` screen.
pub fn centered_origin(screen_width: i32, screen_height: i32, rect: ClientRect) -> (r: (i32, i32))
    requires
        centering_fits(screen_width, screen_height, rect),
    ensures
        r.0 == centered_start(screen_width as int, rect.left as int, rect.right as int),
        r.1 == centered_start(screen_height as int, rect.top as int, rect.bottom as int),
{
    let window_width = rect.right - rect.left;
    let window_height = rect.bottom - rect.top;
    let x = half_toward_zero_exec((screen_width - window_width) as i64);
    let y = half_toward_zero_exec((screen_height - window_height) as i64);
    (x as i32, y as i32)
}

/// The extended window style that makes a window with style
/// `extended_style` layered as well.
pub fn layered_style(extended_style: isize) -> (r: isize)
    ensures
        r == extended_style | WS_EX_LAYERED,
{
    extended_style | WS_EX_LAYERED
}

/// Registration hook for the toast window class; there is nothing to
/// register ahead of time, the class is registered when a toast is shown.
pub fn overlay_toast_register() {
}

} // verus!
