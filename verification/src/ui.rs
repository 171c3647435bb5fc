use vstd::prelude::*;

use crate::hotkey::KeyBindingTarget;
use crate::label::{key_label, key_to_label};
use crate::state::SharedState;

verus! {

/// What the user interface shows of the state, all as text where it is text.
pub struct UiState {
    pub cps: u32,
    pub running: bool,
    pub inv_paused: bool,
    pub status: String,
    pub inventory_key: String,
    pub toggle_key: String,
    pub pending_bind: Option<String>,
    pub notice: String,
    pub is_elevated: bool,
}

/// The status line: clicking, paused for the inventory, or stopped.
pub open spec fn status_text(running: bool, inv_paused: bool) -> Seq<char> {
    if running {
        "Active"@
    } else if inv_paused {
        "Paused (inventory)"@
    } else {
        "Stopped"@
    }
}

/// The name under which the user interface refers to a binding target.
pub open spec fn target_id(target: KeyBindingTarget) -> Seq<char> {
    match target {
        KeyBindingTarget::Inventory => "inventory"@,
        KeyBindingTarget::Toggle => "toggle"@,
    }
}

/// Whether `ui` shows the state `inner`.
pub open spec fn shows(ui: UiState, inner: SharedState) -> bool {
    &&& ui.cps == inner.cps
    &&& ui.running == inner.running
    &&& ui.inv_paused == inner.inv_paused
    &&& ui.status@ == status_text(inner.running, inner.inv_paused)
    &&& ui.inventory_key@ == key_label(inner.inventory_key)
    &&& ui.toggle_key@ == key_label(inner.toggle_key)
    &&& match inner.pending_bind {
        Option::None => ui.pending_bind is None,
        Option::Some(target) => ui.pending_bind matches Option::Some(id) && id@ == target_id(
            target,
        ),
    }
    &&& ui.notice@ == inner.notice@
    &&& ui.is_elevated == inner.is_elevated
}

fn target_id_string(target: KeyBindingTarget) -> (id: String)
    ensures
        id@ == target_id(target),
{
    match target {
        KeyBindingTarget::Inventory => String::from_str("inventory"),
        KeyBindingTarget::Toggle => String::from_str("toggle"),
    }
}

/// Returns what the user interface shows of `inner`.
pub fn to_ui_state(inner: &SharedState) -> (ui: UiState)
    ensures
        shows(ui, *inner),
{
    let status = if inner.running {
        "Active"
    } else if inner.inv_paused {
        "Paused (inventory)"
    } else {
        "Stopped"
    };
    let pending_bind = match inner.pending_bind {
        Option::Some(target) => Option::Some(target_id_string(target)),
        Option::None => Option::None,
    };
    UiState {
        cps: inner.cps,
        running: inner.running,
        inv_paused: inner.inv_paused,
        status: String::from_str(status),
        inventory_key: key_to_label(inner.inventory_key),
        toggle_key: key_to_label(inner.toggle_key),
        pending_bind,
        notice: inner.notice.clone(),
        is_elevated: inner.is_elevated,
    }
}

} // verus!
