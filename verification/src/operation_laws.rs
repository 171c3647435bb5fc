//! What each operation does, stated over its inputs and results.

use vstd::prelude::*;

use crate::classic::{classic_release_step, classic_status_text, toggle_status_text, toggled, ClickFlags};
use crate::click::click_delay;
use crate::commands::{
    begin_key_bind_step, bind_target_named, set_cps_step, set_key_bind_step, set_running_step,
    CommandError,
};
use crate::hotkey::{
    hook_event_of, target_ui_label, HotKey, KeyBindingTarget, KeyEvent, WM_KEYDOWN, WM_SYSKEYDOWN,
};
use crate::label::{decimal, key_label};
use crate::state::{escape_key, initial_view, key_release_step, StateView};
use crate::ui::{status_text, target_id};

verus! {

/// The key held by the hotkey other than `target`.
pub open spec fn other_hotkey(s: StateView, target: KeyBindingTarget) -> HotKey {
    match target {
        KeyBindingTarget::Inventory => s.toggle_key,
        KeyBindingTarget::Toggle => s.inventory_key,
    }
}

/// The key held by the hotkey `target`.
pub open spec fn hotkey_of(s: StateView, target: KeyBindingTarget) -> HotKey {
    match target {
        KeyBindingTarget::Inventory => s.inventory_key,
        KeyBindingTarget::Toggle => s.toggle_key,
    }
}

/// Starting or stopping from the user interface sets the running flag to what
/// was asked; starting ends an inventory pause, stopping keeps it; nothing
/// else but the notice changes.
pub proof fn lemma_set_running_sets_flag(s: StateView, running: bool)
    ensures
        set_running_step(s, running).running == running,
        running ==> !set_running_step(s, running).inv_paused,
        !running ==> set_running_step(s, running).inv_paused == s.inv_paused,
        set_running_step(s, running).notice == if running {
            "Autoclick enabled from UI."@
        } else {
            "Autoclick disabled from UI."@
        },
        set_running_step(s, running).cps == s.cps,
        set_running_step(s, running).inventory_key == s.inventory_key,
        set_running_step(s, running).toggle_key == s.toggle_key,
        set_running_step(s, running).pending_bind == s.pending_bind,
        set_running_step(s, running).is_elevated == s.is_elevated,
{
}

/// Setting the speed keeps a speed within 1 to 100 as it is, raises a lower
/// one to 1 and lowers a higher one to 100; the notice names the speed set,
/// and nothing else changes.
pub proof fn lemma_set_cps_keeps_speed_in_range(s: StateView, cps: u32)
    ensures
        1 <= cps <= 100 ==> set_cps_step(s, cps).cps == cps,
        cps < 1 ==> set_cps_step(s, cps).cps == 1,
        cps > 100 ==> set_cps_step(s, cps).cps == 100,
        set_cps_step(s, cps).notice == "Speed set to "@ + decimal(set_cps_step(s, cps).cps as nat)
            + " CPS."@,
        set_cps_step(s, cps).running == s.running,
        set_cps_step(s, cps).inv_paused == s.inv_paused,
        set_cps_step(s, cps).inventory_key == s.inventory_key,
        set_cps_step(s, cps).toggle_key == s.toggle_key,
        set_cps_step(s, cps).pending_bind == s.pending_bind,
        set_cps_step(s, cps).is_elevated == s.is_elevated,
{
}

/// During a rebinding, a released key other than `Escape` is refused exactly
/// when the other hotkey holds it. Otherwise it becomes the key of the target,
/// the other hotkey keeps its key, and the rebinding ends.
pub proof fn lemma_rebinding_refused_exactly_when_taken(s: StateView, key: HotKey)
    requires
        s.pending_bind is Some,
        key != escape_key(),
    ensures
        ({
            let target = s.pending_bind->0;
            let (t, handled) = key_release_step(s, key);
            &&& handled
            &&& key == other_hotkey(s, target) ==> {
                &&& t.pending_bind == s.pending_bind
                &&& t.inventory_key == s.inventory_key
                &&& t.toggle_key == s.toggle_key
            }
            &&& key != other_hotkey(s, target) ==> {
                &&& t.pending_bind is None
                &&& hotkey_of(t, target) == key
                &&& other_hotkey(t, target) == other_hotkey(s, target)
                &&& t.notice == target_ui_label(target) + " is now set to "@ + key_label(key) + "."@
            }
            &&& t.running == s.running
            &&& t.inv_paused == s.inv_paused
            &&& t.cps == s.cps
        }),
{
}

/// Without a pending rebinding, the toggle key flips the running flag and
/// ends any inventory pause.
pub proof fn lemma_toggle_key_flips_running(s: StateView)
    requires
        s.pending_bind is None,
    ensures
        key_release_step(s, s.toggle_key).1,
        key_release_step(s, s.toggle_key).0.running == !s.running,
        !key_release_step(s, s.toggle_key).0.inv_paused,
        key_release_step(s, s.toggle_key).0.inventory_key == s.inventory_key,
        key_release_step(s, s.toggle_key).0.toggle_key == s.toggle_key,
        key_release_step(s, s.toggle_key).0.cps == s.cps,
        key_release_step(s, s.toggle_key).0.notice == if s.running {
            "Autoclick disabled."@
        } else {
            "Autoclick enabled."@
        },
{
}

/// Without a pending rebinding, the inventory key (when it is not also the
/// toggle key) pauses a running autoclick, resumes a paused one, and does
/// nothing to a stopped one.
pub proof fn lemma_inventory_key_pauses_and_resumes(s: StateView)
    requires
        s.pending_bind is None,
        s.inventory_key != s.toggle_key,
        !(s.running && s.inv_paused),
    ensures
        ({
            let (t, handled) = key_release_step(s, s.inventory_key);
            &&& handled == (s.running || s.inv_paused)
            &&& s.running ==> !t.running && t.inv_paused && t.notice == "Inventory pause enabled."@
            &&& s.inv_paused ==> t.running && !t.inv_paused && t.notice
                == "Resumed after inventory pause."@
            &&& !s.running && !s.inv_paused ==> t == s
            &&& t.inventory_key == s.inventory_key
            &&& t.toggle_key == s.toggle_key
            &&& t.cps == s.cps
        }),
{
}

/// Beginning a rebinding marks its target as pending and changes nothing else
/// but the notice.
pub proof fn lemma_begin_key_bind_marks_pending(s: StateView, target: KeyBindingTarget)
    ensures
        begin_key_bind_step(s, target).pending_bind == Option::Some(target),
        begin_key_bind_step(s, target).running == s.running,
        begin_key_bind_step(s, target).inv_paused == s.inv_paused,
        begin_key_bind_step(s, target).inventory_key == s.inventory_key,
        begin_key_bind_step(s, target).toggle_key == s.toggle_key,
        begin_key_bind_step(s, target).cps == s.cps,
{
}

/// The name under which the user interface shows a binding target is read
/// back as that target, and the two names differ.
pub proof fn lemma_bind_target_names_round_trip(target: KeyBindingTarget)
    ensures
        bind_target_named(target_id(target)) == Option::Some(target),
{
    reveal_strlit("inventory");
    reveal_strlit("toggle");
    assert("toggle"@ != "inventory"@) by {
        assert("toggle"@.len() != "inventory"@.len());
    }
}

/// A rebinding request with a key code outside `1..=255` is refused as such,
/// whatever the target; one with a valid code but an unknown target is
/// refused for the target.
pub proof fn lemma_set_key_bind_refusals(s: StateView, name: Seq<char>, key_code: u32)
    ensures
        (key_code == 0 || key_code > 255) ==> set_key_bind_step(s, name, key_code) == Result::<
            StateView,
            CommandError,
        >::Err(CommandError::InvalidKeyCode),
        (1 <= key_code <= 255 && bind_target_named(name) is None) ==> set_key_bind_step(
            s,
            name,
            key_code,
        ) == Result::<StateView, CommandError>::Err(CommandError::InvalidBindTarget),
{
}

/// The pause after a click is the largest whole number of milliseconds that
/// the clicks of one second fit in, and never below 1 millisecond.
pub proof fn lemma_click_delay_fits_speed(cps: u32)
    requires
        1 <= cps <= 1000,
    ensures
        click_delay(cps) * cps <= 1000,
        (click_delay(cps) + 1) * cps > 1000,
{
    let d: int = 1000int / (cps as int);
    assert(d * cps <= 1000 && (d + 1) * cps > 1000) by (nonlinear_arith)
        requires
            d == 1000int / (cps as int),
            1 <= cps <= 1000,
    ;
}

/// Above a thousand clicks per second the pause is 1 millisecond.
pub proof fn lemma_click_delay_floor(cps: u32)
    requires
        cps > 1000,
    ensures
        click_delay(cps) == 1,
{
    assert(1000int / (cps as int) == 0) by (nonlinear_arith)
        requires
            cps > 1000,
    ;
}

/// In the standalone program, releasing `F4` flips the running flag and ends
/// any inventory pause, whatever the inventory key is.
pub proof fn lemma_classic_f4_flips_running(f: ClickFlags, inventory_key: HotKey)
    ensures
        classic_release_step(f, HotKey(0x73), inventory_key).running == !f.running,
        !classic_release_step(f, HotKey(0x73), inventory_key).inv_paused,
        toggled(f).running == !f.running,
        !toggled(f).inv_paused,
{
}

/// In the standalone program, the inventory key (when it is not `F4`) pauses a
/// running autoclick, resumes a paused one and leaves a stopped one alone;
/// any other key changes nothing.
pub proof fn lemma_classic_inventory_key(f: ClickFlags, key: HotKey, inventory_key: HotKey)
    requires
        key != HotKey(0x73),
        !(f.running && f.inv_paused),
    ensures
        key != inventory_key ==> classic_release_step(f, key, inventory_key) == f,
        key == inventory_key && f.running ==> classic_release_step(f, key, inventory_key)
            == (ClickFlags { running: false, inv_paused: true }),
        key == inventory_key && f.inv_paused ==> classic_release_step(f, key, inventory_key)
            == (ClickFlags { running: true, inv_paused: false }),
        key == inventory_key && !f.running && !f.inv_paused ==> classic_release_step(
            f,
            key,
            inventory_key,
        ) == f,
{
}

/// The application starts stopped and unpaused, at 13 clicks per second,
/// with `E` as the inventory key, `F4` as the toggle key and no rebinding.
pub proof fn lemma_initial_state(is_elevated: bool)
    ensures
        initial_view(is_elevated).cps == 13,
        !initial_view(is_elevated).running,
        !initial_view(is_elevated).inv_paused,
        initial_view(is_elevated).inventory_key == HotKey(0x45),
        initial_view(is_elevated).toggle_key == HotKey(0x73),
        initial_view(is_elevated).pending_bind is None,
        initial_view(is_elevated).is_elevated == is_elevated,
{
}

/// The status line says `Active` while clicking, `Paused (inventory)` during
/// an inventory pause and `Stopped` otherwise; the three differ.
pub proof fn lemma_status_lines(running: bool, inv_paused: bool)
    ensures
        running ==> status_text(running, inv_paused) == "Active"@,
        !running && inv_paused ==> status_text(running, inv_paused) == "Paused (inventory)"@,
        !running && !inv_paused ==> status_text(running, inv_paused) == "Stopped"@,
        "Active"@ != "Stopped"@,
        "Active"@ != "Paused (inventory)"@,
        "Stopped"@ != "Paused (inventory)"@,
{
    reveal_strlit("Active");
    reveal_strlit("Stopped");
    reveal_strlit("Paused (inventory)");
    assert("Active"@.len() != "Stopped"@.len());
    assert("Active"@.len() != "Paused (inventory)"@.len());
    assert("Stopped"@.len() != "Paused (inventory)"@.len());
}

/// The two binding targets have different labels.
pub proof fn lemma_target_labels_differ()
    ensures
        target_ui_label(KeyBindingTarget::Inventory) != target_ui_label(KeyBindingTarget::Toggle),
{
    reveal_strlit("Inventory pause");
    reveal_strlit("Toggle autoclick");
    assert("Inventory pause"@.len() != "Toggle autoclick"@.len());
}

/// A hook call it may process with a key-down message is read as a press of
/// that key.
pub proof fn lemma_hook_reads_presses(code: i32, message: u32, vk_code: u32)
    requires
        code >= 0,
        message == WM_KEYDOWN || message == WM_SYSKEYDOWN,
    ensures
        hook_event_of(code, message, vk_code) == KeyEvent::KeyPress(HotKey(vk_code)),
{
}

/// In the standalone program the start / stop button reports `Clics actifs`
/// when it starts and `Arrêté` when it stops, and the window's status line
/// says `Active click`, `Paused (inventory)` or `Stopped`, all different.
pub proof fn lemma_classic_status_lines(running: bool, inv_paused: bool)
    ensures
        toggle_status_text(true) == "Clics actifs"@,
        toggle_status_text(false) == "Arrêté"@,
        "Clics actifs"@ != "Arrêté"@,
        running ==> classic_status_text(running, inv_paused) == "Active click"@,
        !running && inv_paused ==> classic_status_text(running, inv_paused) == "Paused (inventory)"@,
        !running && !inv_paused ==> classic_status_text(running, inv_paused) == "Stopped"@,
        "Active click"@ != "Stopped"@,
        "Active click"@ != "Paused (inventory)"@,
        "Stopped"@ != "Paused (inventory)"@,
{
    reveal_strlit("Clics actifs");
    reveal_strlit("Arrêté");
    reveal_strlit("Active click");
    reveal_strlit("Stopped");
    reveal_strlit("Paused (inventory)");
    assert("Clics actifs"@.len() != "Arrêté"@.len());
    assert("Active click"@.len() != "Stopped"@.len());
    assert("Active click"@.len() != "Paused (inventory)"@.len());
    assert("Stopped"@.len() != "Paused (inventory)"@.len());
}

} // verus!
