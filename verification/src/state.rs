use vstd::prelude::*;

use crate::hotkey::{target_to_ui_label, target_ui_label, HotKey, KeyBindingTarget};
use crate::label::{key_label, key_to_label};

verus! {

/// Everything the autoclicker decides on: speed, whether it clicks, the two
/// hotkeys, a rebinding in progress and the message shown to the user.
pub struct SharedState {
    pub cps: u32,
    pub running: bool,
    pub inv_paused: bool,
    pub inventory_key: HotKey,
    pub toggle_key: HotKey,
    pub pending_bind: Option<KeyBindingTarget>,
    pub notice: String,
    pub is_elevated: bool,
}

/// The mathematical value of a [`SharedState`]: the same fields, with the notice
/// taken as a sequence of characters.
pub struct StateView {
    pub cps: u32,
    pub running: bool,
    pub inv_paused: bool,
    pub inventory_key: HotKey,
    pub toggle_key: HotKey,
    pub pending_bind: Option<KeyBindingTarget>,
    pub notice: Seq<char>,
    pub is_elevated: bool,
}

impl View for SharedState {
    type V = StateView;

    open spec fn view(&self) -> StateView {
        StateView {
            cps: self.cps,
            running: self.running,
            inv_paused: self.inv_paused,
            inventory_key: self.inventory_key,
            toggle_key: self.toggle_key,
            pending_bind: self.pending_bind,
            notice: self.notice@,
            is_elevated: self.is_elevated,
        }
    }
}

/// The key that cancels a rebinding.
pub open spec fn escape_key() -> HotKey {
    HotKey(0x1B)
}

/// The notice shown at start-up.
pub open spec fn default_notice_text(is_elevated: bool) -> Seq<char> {
    if is_elevated {
        "You can assign any keyboard key."@
    } else {
        "Administrator mode is required for this app. Please accept the UAC prompt on launch."@
    }
}

/// The state the application starts in.
pub open spec fn initial_view(is_elevated: bool) -> StateView {
    StateView {
        cps: 13,
        running: false,
        inv_paused: false,
        inventory_key: HotKey(0x45),
        toggle_key: HotKey(0x73),
        pending_bind: Option::None,
        notice: default_notice_text(is_elevated),
        is_elevated,
    }
}

/// `s` with its notice replaced.
pub open spec fn with_notice(s: StateView, notice: Seq<char>) -> StateView {
    StateView { notice, ..s }
}

/// Whether binding `key` to `target` would give both hotkeys the same key.
pub open spec fn binding_conflict(s: StateView, target: KeyBindingTarget, key: HotKey) -> bool {
    match target {
        KeyBindingTarget::Inventory => key == s.toggle_key,
        KeyBindingTarget::Toggle => key == s.inventory_key,
    }
}

/// `s` with `target` bound to `key`.
pub open spec fn with_binding(s: StateView, target: KeyBindingTarget, key: HotKey) -> StateView {
    match target {
        KeyBindingTarget::Inventory => StateView { inventory_key: key, ..s },
        KeyBindingTarget::Toggle => StateView { toggle_key: key, ..s },
    }
}

/// The notice that confirms a new binding.
pub open spec fn bound_notice(target: KeyBindingTarget, key: HotKey) -> Seq<char> {
    target_ui_label(target) + " is now set to "@ + key_label(key) + "."@
}

/// What a released key does while a rebinding may be pending: the new state,
/// and whether the key was consumed (the state changed and must be shown).
pub open spec fn pending_bind_step(s: StateView, key: HotKey) -> (StateView, bool) {
    match s.pending_bind {
        Option::None => (s, false),
        Option::Some(target) => {
            if key == escape_key() {
                (
                    StateView {
                        pending_bind: Option::None,
                        notice: "Key binding canceled."@,
                        ..s
                    },
                    true,
                )
            } else if binding_conflict(s, target, key) {
                (with_notice(s, "This key is already used by the other hotkey."@), true)
            } else {
                (
                    StateView {
                        pending_bind: Option::None,
                        notice: bound_notice(target, key),
                        ..with_binding(s, target, key)
                    },
                    true,
                )
            }
        },
    }
}

/// What releasing `key` does: the new state, and whether anything changed.
pub open spec fn key_release_step(s: StateView, key: HotKey) -> (StateView, bool) {
    if s.pending_bind is Some {
        pending_bind_step(s, key)
    } else if key == s.toggle_key {
        (
            StateView {
                running: !s.running,
                inv_paused: false,
                notice: if !s.running {
                    "Autoclick enabled."@
                } else {
                    "Autoclick disabled."@
                },
                ..s
            },
            true,
        )
    } else if key == s.inventory_key && s.running {
        (
            StateView {
                running: false,
                inv_paused: true,
                notice: "Inventory pause enabled."@,
                ..s
            },
            true,
        )
    } else if key == s.inventory_key && s.inv_paused {
        (
            StateView {
                running: true,
                inv_paused: false,
                notice: "Resumed after inventory pause."@,
                ..s
            },
            true,
        )
    } else {
        (s, false)
    }
}

/// Returns the notice shown at start-up.
pub fn default_notice(is_elevated: bool) -> (notice: String)
    ensures
        notice@ == default_notice_text(is_elevated),
{
    if is_elevated {
        String::from_str("You can assign any keyboard key.")
    } else {
        String::from_str(
            "Administrator mode is required for this app. Please accept the UAC prompt on launch.",
        )
    }
}

impl SharedState {
    /// The state the application starts in: 13 clicks per second, stopped,
    /// `E` for the inventory pause and `F4` to toggle.
    pub fn new(is_elevated: bool) -> (s: SharedState)
        ensures
            s@ == initial_view(is_elevated),
    {
        SharedState {
            cps: 13,
            running: false,
            inv_paused: false,
            inventory_key: HotKey::KEY_E(),
            toggle_key: HotKey::F4(),
            pending_bind: Option::None,
            notice: default_notice(is_elevated),
            is_elevated,
        }
    }
}

/// Replaces the notice shown to the user.
pub fn set_notice(inner: &mut SharedState, notice: String)
    ensures
        final(inner)@ == with_notice(old(inner)@, notice@),
{
    inner.notice = notice;
}

/// Whether binding `key` to `target` would clash with the other hotkey.
pub fn is_binding_conflict(inner: &SharedState, target: KeyBindingTarget, key: HotKey) -> (b: bool)
    ensures
        b == binding_conflict(inner@, target, key),
{
    match target {
        KeyBindingTarget::Inventory => key == inner.toggle_key,
        KeyBindingTarget::Toggle => key == inner.inventory_key,
    }
}

/// Completes a pending rebinding with the released `key`: `Escape` cancels it, a
/// key that the other hotkey holds is refused, any other key is bound. Returns
/// `false`, and changes nothing, when no rebinding is pending.
pub fn apply_pending_bind(inner: &mut SharedState, key: HotKey) -> (handled: bool)
    ensures
        (final(inner)@, handled) == pending_bind_step(old(inner)@, key),
{
    let target = match inner.pending_bind {
        Option::Some(target) => target,
        Option::None => {
            return false;
        },
    };
    if key == HotKey::ESCAPE() {
        inner.pending_bind = Option::None;
        set_notice(inner, String::from_str("Key binding canceled."));
        return true;
    }
    if is_binding_conflict(inner, target, key) {
        set_notice(inner, String::from_str("This key is already used by the other hotkey."));
        return true;
    }
    match target {
        KeyBindingTarget::Inventory => inner.inventory_key = key,
        KeyBindingTarget::Toggle => inner.toggle_key = key,
    }
    inner.pending_bind = Option::None;
    let label = key_to_label(key);
    let notice = String::from_str(target_to_ui_label(target))
        .concat(" is now set to ")
        .concat(label.as_str())
        .concat(".");
    set_notice(inner, notice);
    true
}

/// Reacts to a released key: completes a pending rebinding, or toggles the
/// autoclick, or pauses and resumes it for the inventory. Returns whether the
/// state changed.
pub fn handle_key_release(inner: &mut SharedState, key: HotKey) -> (changed: bool)
    ensures
        (final(inner)@, changed) == key_release_step(old(inner)@, key),
{
    if inner.pending_bind.is_some() {
        return apply_pending_bind(inner, key);
    }
    if key == inner.toggle_key {
        inner.running = !inner.running;
        inner.inv_paused = false;
        let notice = if inner.running {
            "Autoclick enabled."
        } else {
            "Autoclick disabled."
        };
        set_notice(inner, String::from_str(notice));
        return true;
    }
    if key == inner.inventory_key {
        if inner.running {
            inner.running = false;
            inner.inv_paused = true;
            set_notice(inner, String::from_str("Inventory pause enabled."));
            return true;
        }
        if inner.inv_paused {
            inner.running = true;
            inner.inv_paused = false;
            set_notice(inner, String::from_str("Resumed after inventory pause."));
            return true;
        }
    }
    false
}

} // verus!
