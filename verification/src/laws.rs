//! Properties of the library as a whole: what every operation keeps, and what
//! sequences of operations amount to.

use vstd::prelude::*;

use crate::classic::{classic_release_step, toggled, ClickFlags};
use crate::click::click_delay;
use crate::commands::{
    begin_key_bind_step, bind_target_named, set_cps_step, set_key_bind_step,
    set_running_step,
};
use crate::label::{key_label, lemma_key_labels_distinct};
use crate::hotkey::{hook_event_of, relevant_key, HotKey, KeyBindingTarget, WM_KEYUP, WM_SYSKEYUP};
use crate::state::{
    binding_conflict, escape_key, initial_view, key_release_step, pending_bind_step, with_notice,
    StateView,
};

verus! {

/// What holds of every state the application reaches: the two hotkeys differ,
/// the autoclick is never running and paused at once, and the speed lies
/// within 1 to 100 clicks per second.
pub open spec fn well_formed(s: StateView) -> bool {
    &&& s.inventory_key != s.toggle_key
    &&& !(s.running && s.inv_paused)
    &&& 1 <= s.cps <= 100
}

/// The application starts in a well-formed state.
pub proof fn lemma_initial_state_well_formed(is_elevated: bool)
    ensures
        well_formed(initial_view(is_elevated)),
{
}

/// Every operation keeps the state well formed: releasing a key, setting the
/// speed, starting or stopping from the user interface, beginning a rebinding
/// and rebinding at once. In particular the two hotkeys never end up on the
/// same key.
pub proof fn lemma_operations_keep_well_formed(
    s: StateView,
    key: HotKey,
    cps: u32,
    running: bool,
    target: KeyBindingTarget,
    name: Seq<char>,
    key_code: u32,
)
    requires
        well_formed(s),
    ensures
        well_formed(key_release_step(s, key).0),
        well_formed(set_cps_step(s, cps)),
        well_formed(set_running_step(s, running)),
        well_formed(begin_key_bind_step(s, target)),
        set_key_bind_step(s, name, key_code) matches Result::Ok(t) ==> well_formed(t),
{
}

/// `Escape`, released while a rebinding is pending, cancels it and leaves both
/// hotkeys and the autoclick as they were.
pub proof fn lemma_escape_cancels_binding(s: StateView)
    requires
        s.pending_bind is Some,
    ensures
        ({
            let (t, handled) = key_release_step(s, escape_key());
            &&& handled
            &&& t.pending_bind is None
            &&& t.inventory_key == s.inventory_key
            &&& t.toggle_key == s.toggle_key
            &&& t.running == s.running
            &&& t.inv_paused == s.inv_paused
            &&& t.cps == s.cps
            &&& t.notice == "Key binding canceled."@
        }),
{
}

/// A key that the other hotkey already holds is refused: the rebinding stays
/// pending, both hotkeys stay, only the notice says why.
pub proof fn lemma_conflicting_key_refused(s: StateView, key: HotKey)
    requires
        s.pending_bind matches Option::Some(target) && binding_conflict(s, target, key),
        key != escape_key(),
    ensures
        key_release_step(s, key) == (
            with_notice(s, "This key is already used by the other hotkey."@),
            true,
        ),
{
}

/// A release that the state machine reports as unhandled changes nothing.
pub proof fn lemma_unhandled_release_changes_nothing(s: StateView, key: HotKey)
    ensures
        !key_release_step(s, key).1 ==> key_release_step(s, key).0 == s,
{
}

/// Without a pending rebinding, keys other than the two hotkeys are ignored.
pub proof fn lemma_other_keys_ignored(s: StateView, key: HotKey)
    requires
        s.pending_bind is None,
        key != s.inventory_key,
        key != s.toggle_key,
    ensures
        key_release_step(s, key) == (s, false),
{
}

/// Pressing the inventory key twice while clicking pauses and then resumes:
/// the autoclick ends up running again, with nothing else changed but the
/// notice.
pub proof fn lemma_inventory_pause_round_trip(s: StateView)
    requires
        well_formed(s),
        s.pending_bind is None,
        s.running,
    ensures
        ({
            let (paused, first) = key_release_step(s, s.inventory_key);
            let (resumed, second) = key_release_step(paused, s.inventory_key);
            &&& first && second
            &&& !paused.running && paused.inv_paused
            &&& resumed == with_notice(s, "Resumed after inventory pause."@)
        }),
{
}

/// Pressing the toggle key twice leaves the autoclick running as it was, and
/// ends any inventory pause.
pub proof fn lemma_toggle_twice(s: StateView)
    requires
        s.pending_bind is None,
    ensures
        ({
            let once = key_release_step(s, s.toggle_key).0;
            let twice = key_release_step(once, s.toggle_key).0;
            &&& once.running == !s.running
            &&& twice.running == s.running
            &&& !twice.inv_paused
        }),
{
}

/// A completed rebinding takes effect: afterwards the new key is the hotkey,
/// and releasing it acts as that hotkey.
pub proof fn lemma_new_binding_takes_effect(s: StateView, key: HotKey)
    requires
        well_formed(s),
        s.pending_bind is Some,
        key != escape_key(),
        !binding_conflict(s, s.pending_bind->0, key),
    ensures
        ({
            let bound = key_release_step(s, key).0;
            &&& bound.pending_bind is None
            &&& s.pending_bind == Option::Some(KeyBindingTarget::Toggle) ==> {
                &&& bound.toggle_key == key
                &&& bound.inventory_key == s.inventory_key
                &&& key_release_step(bound, key).0.running == !s.running
            }
            &&& s.pending_bind == Option::Some(KeyBindingTarget::Inventory) ==> {
                &&& bound.inventory_key == key
                &&& bound.toggle_key == s.toggle_key
                &&& s.running ==> key_release_step(bound, key).0.inv_paused
            }
        }),
{
}

/// Rebinding at once is beginning a rebinding and then releasing the key.
pub proof fn lemma_set_key_bind_is_begin_then_release(
    s: StateView,
    name: Seq<char>,
    key_code: u32,
    target: KeyBindingTarget,
)
    requires
        1 <= key_code <= 255,
        bind_target_named(name) == Option::Some(target),
    ensures
        set_key_bind_step(s, name, key_code) == Result::<StateView, crate::commands::CommandError>::Ok(
            key_release_step(begin_key_bind_step(s, target), HotKey(key_code)).0,
        ),
{
    assert(pending_bind_step(begin_key_bind_step(s, target), HotKey(key_code)).0
        == pending_bind_step(StateView { pending_bind: Option::Some(target), ..s }, HotKey(key_code)).0);
}

/// The keyboard hook hands on a key exactly for the key-up messages of hook
/// calls it may process, and the key it hands on is the one released.
pub proof fn lemma_hook_reports_releases(code: i32, message: u32, vk_code: u32)
    ensures
        relevant_key(hook_event_of(code, message, vk_code)) == if code >= 0 && (message == WM_KEYUP
            || message == WM_SYSKEYUP) {
            Option::Some(HotKey(vk_code))
        } else {
            Option::None
        },
{
}

/// Every key has a non-empty label, and no two keys share a label: named keys
/// have pairwise different names, and every other key shows its own code.
pub proof fn lemma_distinct_keys_distinct_labels(k1: HotKey, k2: HotKey)
    requires
        k1 != k2,
    ensures
        key_label(k1).len() > 0,
        key_label(k2).len() > 0,
        key_label(k1) != key_label(k2),
{
    lemma_key_labels_distinct(k1, k2);
    lemma_key_labels_distinct(k2, k1);
}

/// The pause between clicks lies between 1 and 1000 milliseconds.
pub proof fn lemma_click_delay_bounds(cps: u32)
    ensures
        1 <= click_delay(cps) <= 1000,
{
}

/// In the standalone program the autoclick is never running and paused at once.
pub proof fn lemma_classic_flags_exclusive(f: ClickFlags, key: HotKey, inventory_key: HotKey)
    requires
        !(f.running && f.inv_paused),
    ensures
        !(classic_release_step(f, key, inventory_key).running && classic_release_step(
            f,
            key,
            inventory_key,
        ).inv_paused),
        !(toggled(f).running && toggled(f).inv_paused),
{
}

/// In the standalone program, pressing the inventory key twice while clicking
/// pauses and then resumes.
pub proof fn lemma_classic_inventory_round_trip(inventory_key: HotKey)
    requires
        inventory_key != HotKey(0x73),
    ensures
        ({
            let running = ClickFlags { running: true, inv_paused: false };
            let paused = classic_release_step(running, inventory_key, inventory_key);
            &&& paused == ClickFlags { running: false, inv_paused: true }
            &&& classic_release_step(paused, inventory_key, inventory_key) == running
        }),
{
}

} // verus!
