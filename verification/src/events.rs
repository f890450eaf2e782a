use vstd::prelude::*;

use crate::keys::{
    WM_LBUTTONDBLCLK, WM_LBUTTONDOWN, WM_LBUTTONUP, WM_MBUTTONDBLCLK, WM_MBUTTONDOWN,
    WM_MBUTTONUP, WM_MOUSEACTIVATE, WM_MOUSEHOVER, WM_MOUSEHWHEEL, WM_MOUSELEAVE, WM_MOUSEMOVE,
    WM_MOUSEWHEEL, WM_NCHITTEST, WM_NCLBUTTONDBLCLK, WM_NCLBUTTONDOWN, WM_NCLBUTTONUP,
};

verus! {

/// The message that stops the message loop once it has been dispatched.
pub const QUIT_MESSAGE: u32 = 0x51;

/// The mouse messages that the mouse hook reports.
pub open spec fn reported_mouse_messages() -> Seq<u32> {
    seq![
        WM_LBUTTONDBLCLK,
        WM_LBUTTONDOWN,
        WM_LBUTTONUP,
        WM_MBUTTONDBLCLK,
        WM_MBUTTONDOWN,
        WM_MBUTTONUP,
        WM_MOUSEACTIVATE,
        WM_MOUSEHOVER,
        WM_MOUSEHWHEEL,
        WM_MOUSELEAVE,
        WM_MOUSEMOVE,
        WM_MOUSEWHEEL,
        WM_NCHITTEST,
        WM_NCLBUTTONDBLCLK,
        WM_NCLBUTTONDOWN,
        WM_NCLBUTTONUP,
    ]
}

/// What the message loop does after one attempt to fetch a message.
#[derive(Clone, Copy, Debug, PartialEq, Eq, Structural)]
pub enum LoopStep {
    /// Fetching failed: report the error and stop.
    Failed,
    /// The quit message arrived: stop.
    Finished,
    /// Translate and dispatch the message, then stop if it was the quit key.
    Dispatch { then_stop: bool },
}

/// The step for a fetch that returned `get_message_result` with a message of
/// kind `message`.
pub open spec fn loop_step_of(get_message_result: i32, message: u32) -> LoopStep {
    if get_message_result == -1 {
        LoopStep::Failed
    } else if get_message_result == 0 {
        LoopStep::Finished
    } else {
        LoopStep::Dispatch { then_stop: message == QUIT_MESSAGE }
    }
}

/// Whether the mouse hook reports this call: the hook code is not negative
/// and the message is one of [`reported_mouse_messages`].
pub fn mouse_event_is_reported(n_code: i32, wparam: usize) -> (r: bool)
    ensures
        r == (n_code >= 0 && reported_mouse_messages().contains(#[verifier::truncate] (wparam as u32))),
{
    let filter: Vec<u32> = vec![
        WM_LBUTTONDBLCLK,
        WM_LBUTTONDOWN,
        WM_LBUTTONUP,
        WM_MBUTTONDBLCLK,
        WM_MBUTTONDOWN,
        WM_MBUTTONUP,
        WM_MOUSEACTIVATE,
        WM_MOUSEHOVER,
        WM_MOUSEHWHEEL,
        WM_MOUSELEAVE,
        WM_MOUSEMOVE,
        WM_MOUSEWHEEL,
        WM_NCHITTEST,
        WM_NCLBUTTONDBLCLK,
        WM_NCLBUTTONDOWN,
        WM_NCLBUTTONUP,
    ];
    assert(filter@ == reported_mouse_messages());
    if n_code < 0 {
        return false;
    }
    let message: u32 = #[verifier::truncate] (wparam as u32);
    let mut i: usize = 0;
    while i < filter.len()
        invariant
            i <= filter@.len(),
            filter@ == reported_mouse_messages(),
            n_code >= 0,
            message == #[verifier::truncate] (wparam as u32),
            forall|j: int| 0 <= j < i ==> filter@[j] != message,
        decreases filter@.len() - i,
    {
        if filter[i] == message {
            assert(reported_mouse_messages()[i as int] == message);
            return true;
        }
        i = i + 1;
    }
    false
}

/// What the message loop does after fetching a message (see
/// [`loop_step_of`]).
pub fn message_loop_step(get_message_result: i32, message: u32) -> (r: LoopStep)
    ensures
        r == loop_step_of(get_message_result, message),
{
    if get_message_result == -1 {
        LoopStep::Failed
    } else if get_message_result == 0 {
        LoopStep::Finished
    } else {
        LoopStep::Dispatch { then_stop: message == QUIT_MESSAGE }
    }
}

} // verus!
