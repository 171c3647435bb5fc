//! One autoclick: the mouse inputs it injects and the pause after it.

use vstd::prelude::*;

verus! {

/// The mouse-input flag of a cursor move.
pub const MOUSEEVENTF_MOVE: u32 = 0x0001;

/// The mouse-input flag of the left button going down.
pub const MOUSEEVENTF_LEFTDOWN: u32 = 0x0002;

/// The mouse-input flag of the left button going up.
pub const MOUSEEVENTF_LEFTUP: u32 = 0x0004;

/// One injected mouse input: cursor offsets, wheel data, event flags, time
/// stamp and extra information, as the Windows input API takes them.
#[derive(Clone, Copy, Debug, PartialEq, Eq, Structural)]
pub struct MouseInput {
    pub dx: i32,
    pub dy: i32,
    pub mouse_data: i32,
    pub flags: u32,
    pub time: u32,
    pub extra_info: usize,
}

/// A button input with the given flags, where the cursor is.
pub open spec fn button_input(flags: u32) -> MouseInput {
    MouseInput { dx: 0, dy: 0, mouse_data: 0, flags, time: 0, extra_info: 0 }
}

/// Returns the inputs of one click: the left button goes down and then up,
/// with no offset and no move flag, so the cursor never drifts.
pub fn click_inputs() -> (inputs: [MouseInput; 2])
    ensures
        inputs@ == seq![button_input(MOUSEEVENTF_LEFTDOWN), button_input(MOUSEEVENTF_LEFTUP)],
        forall|i: int|
            0 <= i < 2 ==> {
                &&& (#[trigger] inputs@[i]).dx == 0
                &&& inputs@[i].dy == 0
                &&& inputs@[i].flags & MOUSEEVENTF_MOVE == 0
            },
{
    assert(MOUSEEVENTF_LEFTDOWN & MOUSEEVENTF_MOVE == 0) by (bit_vector);
    assert(MOUSEEVENTF_LEFTUP & MOUSEEVENTF_MOVE == 0) by (bit_vector);
    let down = MouseInput {
        dx: 0,
        dy: 0,
        mouse_data: 0,
        flags: MOUSEEVENTF_LEFTDOWN,
        time: 0,
        extra_info: 0,
    };
    let up = MouseInput {
        dx: 0,
        dy: 0,
        mouse_data: 0,
        flags: MOUSEEVENTF_LEFTUP,
        time: 0,
        extra_info: 0,
    };
    let inputs = [down, up];
    assert(inputs@ == seq![down, up]);
    inputs
}

/// The pause after one click at `cps` clicks per second, in milliseconds: a
/// thousand divided by the speed (taken as at least 1), and at least 1.
pub open spec fn click_delay(cps: u32) -> u64 {
    let per_click: int = 1000int / (if cps < 1 { 1int } else { cps as int });
    if per_click < 1 { 1 } else { per_click as u64 }
}

/// Returns the pause after one click at `cps` clicks per second.
pub fn click_delay_ms(cps: u32) -> (ms: u64)
    ensures
        ms == click_delay(cps),
{
    let safe_cps: u64 = if cps < 1 { 1 } else { cps as u64 };
    let per_click: u64 = 1000 / safe_cps;
    if per_click < 1 { 1 } else { per_click }
}

} // verus!
