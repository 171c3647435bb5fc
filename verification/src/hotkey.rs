use vstd::prelude::*;

verus! {

/// A keyboard key, identified by its Windows virtual-key code.
#[derive(Clone, Copy, Debug, PartialEq, Eq, Structural)]
pub struct HotKey(pub u32);

#[allow(non_snake_case)]
impl HotKey {
    /// The `E` key.
    pub fn KEY_E() -> (k: HotKey)
        ensures
            k == HotKey(0x45),
    {
        HotKey(0x45)
    }

    /// The `F4` function key.
    pub fn F4() -> (k: HotKey)
        ensures
            k == HotKey(0x73),
    {
        HotKey(0x73)
    }

    /// The `Escape` key.
    pub fn ESCAPE() -> (k: HotKey)
        ensures
            k == HotKey(0x1B),
    {
        HotKey(0x1B)
    }
}

/// Which of the two hotkeys a rebinding applies to.
#[derive(Clone, Copy, Debug, PartialEq, Eq, Structural)]
pub enum KeyBindingTarget {
    Inventory,
    Toggle,
}

/// The label of a binding target as the user interface shows it.
pub open spec fn target_ui_label(target: KeyBindingTarget) -> Seq<char> {
    match target {
        KeyBindingTarget::Inventory => "Inventory pause"@,
        KeyBindingTarget::Toggle => "Toggle autoclick"@,
    }
}

/// Returns the user-facing name of a binding target.
pub fn target_to_ui_label(target: KeyBindingTarget) -> (label: &'static str)
    ensures
        label@ == target_ui_label(target),
{
    match target {
        KeyBindingTarget::Inventory => "Inventory pause",
        KeyBindingTarget::Toggle => "Toggle autoclick",
    }
}

/// A keyboard event, as the keyboard hook reports it.
#[derive(Clone, Copy, Debug, PartialEq, Eq, Structural)]
pub enum KeyEvent {
    /// A key went down.
    KeyPress(HotKey),
    /// A key went up.
    KeyRelease(HotKey),
    /// Anything else, or a hook call that is to be passed on untouched.
    Other,
}

/// The window message of a key going down.
pub const WM_KEYDOWN: u32 = 0x0100;

/// The window message of a key going up.
pub const WM_KEYUP: u32 = 0x0101;

/// The window message of a key going down while `Alt` is held.
pub const WM_SYSKEYDOWN: u32 = 0x0104;

/// The window message of a key going up while `Alt` is held.
pub const WM_SYSKEYUP: u32 = 0x0105;

/// The event that a low-level keyboard hook call describes: `code` is the hook
/// code (negative ones are to be passed on untouched), `message` the window
/// message and `vk_code` the virtual-key code of the key.
pub open spec fn hook_event_of(code: i32, message: u32, vk_code: u32) -> KeyEvent {
    if code < 0 {
        KeyEvent::Other
    } else if message == WM_KEYUP || message == WM_SYSKEYUP {
        KeyEvent::KeyRelease(HotKey(vk_code))
    } else if message == WM_KEYDOWN || message == WM_SYSKEYDOWN {
        KeyEvent::KeyPress(HotKey(vk_code))
    } else {
        KeyEvent::Other
    }
}

/// Reads a low-level keyboard hook call as a keyboard event.
pub fn hook_event(code: i32, message: u32, vk_code: u32) -> (event: KeyEvent)
    ensures
        event == hook_event_of(code, message, vk_code),
{
    if code < 0 {
        KeyEvent::Other
    } else if message == WM_KEYUP || message == WM_SYSKEYUP {
        KeyEvent::KeyRelease(HotKey(vk_code))
    } else if message == WM_KEYDOWN || message == WM_SYSKEYDOWN {
        KeyEvent::KeyPress(HotKey(vk_code))
    } else {
        KeyEvent::Other
    }
}

/// The key that an event is about, when it is one the hotkeys react to: only
/// releases count.
pub open spec fn relevant_key(event: KeyEvent) -> Option<HotKey> {
    match event {
        KeyEvent::KeyRelease(k) => Option::Some(k),
        _ => Option::None,
    }
}

/// Returns the key of a release event, and nothing for any other event.
pub fn extract_relevant_key(event: KeyEvent) -> (key: Option<HotKey>)
    ensures
        key == relevant_key(event),
{
    match event {
        KeyEvent::KeyRelease(key) => Option::Some(key),
        _ => Option::None,
    }
}

} // verus!
