use vstd::prelude::*;

verus! {

/// The drawing tools that the hotkeys switch between.
#[derive(Clone, Copy, Debug, PartialEq, Eq, Structural)]
pub enum Tools {
    Arrow,
    ArrowSm,
    Select,
    Eraser,
    Pen,
    SelectLg,
}

/// Every tool works on a zoomed-in canvas except the plain arrow and the large
/// selection, which are used to look at the whole page.
pub open spec fn zooms_in(t: Tools) -> bool {
    !(t is Arrow || t is SelectLg)
}

/// The tools that count as a "base" tool: both selections and the pen.
pub open spec fn is_base(t: Tools) -> bool {
    t is Select || t is SelectLg || t is Pen
}

/// The tool that a single right-control press moves to: from the pen or the
/// large selection back to the arrow, from anything else to the pen.
pub open spec fn next_tool(t: Tools) -> Tools {
    if t is Pen || t is SelectLg {
        Tools::Arrow
    } else {
        Tools::Pen
    }
}

/// Whether the canvas should be zoomed in while `t` is active.
pub fn is_tool_zoomed_in(t: &Tools) -> (r: bool)
    ensures
        r == zooms_in(*t),
{
    match t {
        Tools::Arrow => false,
        Tools::ArrowSm => true,
        Tools::SelectLg => false,
        Tools::Select => true,
        Tools::Eraser => true,
        Tools::Pen => true,
    }
}

/// Whether `t` is one of the base tools.
pub fn is_tool_base(t: &Tools) -> (r: bool)
    ensures
        r == is_base(*t),
{
    match t {
        Tools::Arrow => false,
        Tools::ArrowSm => false,
        Tools::SelectLg => true,
        Tools::Select => true,
        Tools::Eraser => false,
        Tools::Pen => true,
    }
}

/// The tool that follows `t` when cycling with a single right-control press.
pub fn get_next_tool(t: Tools) -> (r: Tools)
    ensures
        r == next_tool(t),
{
    match t {
        Tools::Arrow => Tools::Pen,
        Tools::Pen => Tools::Arrow,
        Tools::Eraser => Tools::Pen,
        Tools::Select => Tools::Pen,
        Tools::SelectLg => Tools::Arrow,
        Tools::ArrowSm => Tools::Pen,
    }
}

} // verus!
