use golemian_autoclick::click::{click_delay_ms, click_inputs, MouseInput};
use golemian_autoclick::commands::{
    begin_key_bind, parse_bind_target, set_cps, set_key_bind, set_running, CommandError,
};
use golemian_autoclick::hotkey::{
    extract_relevant_key, hook_event, target_to_ui_label, HotKey, KeyBindingTarget, KeyEvent,
};
use golemian_autoclick::label::{append_decimal, key_to_label};
use golemian_autoclick::state::{
    apply_pending_bind, default_notice, handle_key_release, is_binding_conflict, set_notice,
    SharedState,
};
use golemian_autoclick::ui::to_ui_state;

fn stopped() -> SharedState {
    SharedState::new(true)
}

#[test]
fn new_state_has_documented_defaults() {
    let s = SharedState::new(false);
    assert_eq!(s.cps, 13);
    assert!(!s.running);
    assert!(!s.inv_paused);
    assert_eq!(s.inventory_key, HotKey(0x45));
    assert_eq!(s.toggle_key, HotKey(0x73));
    assert_eq!(s.pending_bind, None);
    assert!(!s.is_elevated);
    assert_eq!(
        s.notice,
        "Administrator mode is required for this app. Please accept the UAC prompt on launch."
    );
}

#[test]
fn default_notice_when_elevated() {
    assert_eq!(default_notice(true), "You can assign any keyboard key.");
}

#[test]
fn target_labels() {
    assert_eq!(target_to_ui_label(KeyBindingTarget::Inventory), "Inventory pause");
    assert_eq!(target_to_ui_label(KeyBindingTarget::Toggle), "Toggle autoclick");
}

#[test]
fn labels_of_named_keys() {
    assert_eq!(key_to_label(HotKey(0x41)), "A");
    assert_eq!(key_to_label(HotKey(0x5A)), "Z");
    assert_eq!(key_to_label(HotKey(0x30)), "0");
    assert_eq!(key_to_label(HotKey(0x7B)), "F12");
    assert_eq!(key_to_label(HotKey(0x0D)), "Enter");
    assert_eq!(key_to_label(HotKey(0xDC)), "\\");
    assert_eq!(key_to_label(HotKey(0xA5)), "Alt Gr");
    assert_eq!(key_to_label(HotKey(0x6B)), "Numpad +");
    assert_eq!(key_to_label(HotKey(0x5C)), "Right Win");
}

#[test]
fn labels_of_unnamed_keys_show_the_code() {
    assert_eq!(key_to_label(HotKey(0)), "HotKey(0)");
    assert_eq!(key_to_label(HotKey(0xBB)), "HotKey(187)");
    assert_eq!(key_to_label(HotKey(u32::MAX)), "HotKey(4294967295)");
}

#[test]
fn decimal_appends_digits() {
    let mut s = String::from("x");
    append_decimal(&mut s, 1070);
    assert_eq!(s, "x1070");
}

#[test]
fn toggle_key_switches_autoclick() {
    let mut s = stopped();
    assert!(handle_key_release(&mut s, HotKey::F4()));
    assert!(s.running);
    assert_eq!(s.notice, "Autoclick enabled.");
    assert!(handle_key_release(&mut s, HotKey::F4()));
    assert!(!s.running);
    assert!(!s.inv_paused);
    assert_eq!(s.notice, "Autoclick disabled.");
}

#[test]
fn toggle_key_ends_inventory_pause() {
    let mut s = stopped();
    s.inv_paused = true;
    assert!(handle_key_release(&mut s, HotKey::F4()));
    assert!(s.running);
    assert!(!s.inv_paused);
}

#[test]
fn inventory_key_notices() {
    let mut s = stopped();
    s.running = true;
    assert!(handle_key_release(&mut s, HotKey::KEY_E()));
    assert_eq!(s.notice, "Inventory pause enabled.");
    assert!(handle_key_release(&mut s, HotKey::KEY_E()));
    assert_eq!(s.notice, "Resumed after inventory pause.");
}

#[test]
fn inventory_key_does_nothing_when_stopped() {
    let mut s = stopped();
    let before = s.notice.clone();
    assert!(!handle_key_release(&mut s, HotKey::KEY_E()));
    assert!(!s.running);
    assert!(!s.inv_paused);
    assert_eq!(s.notice, before);
}

#[test]
fn other_keys_are_ignored() {
    let mut s = stopped();
    s.running = true;
    assert!(!handle_key_release(&mut s, HotKey(0x41)));
    assert!(s.running);
    assert_eq!(s.notice, "You can assign any keyboard key.");
}

#[test]
fn apply_pending_bind_without_pending_does_nothing() {
    let mut s = stopped();
    assert!(!apply_pending_bind(&mut s, HotKey(0x41)));
    assert_eq!(s.toggle_key, HotKey::F4());
    assert_eq!(s.notice, "You can assign any keyboard key.");
}

#[test]
fn escape_notice() {
    let mut s = stopped();
    s.pending_bind = Some(KeyBindingTarget::Inventory);
    assert!(handle_key_release(&mut s, HotKey::ESCAPE()));
    assert_eq!(s.notice, "Key binding canceled.");
    assert_eq!(s.inventory_key, HotKey::KEY_E());
}

#[test]
fn conflict_notice_and_check() {
    let mut s = stopped();
    assert!(is_binding_conflict(&s, KeyBindingTarget::Inventory, HotKey::F4()));
    assert!(!is_binding_conflict(&s, KeyBindingTarget::Inventory, HotKey::KEY_E()));
    assert!(is_binding_conflict(&s, KeyBindingTarget::Toggle, HotKey::KEY_E()));
    s.pending_bind = Some(KeyBindingTarget::Inventory);
    assert!(handle_key_release(&mut s, HotKey::F4()));
    assert_eq!(s.notice, "This key is already used by the other hotkey.");
    assert_eq!(s.pending_bind, Some(KeyBindingTarget::Inventory));
    assert_eq!(s.inventory_key, HotKey::KEY_E());
}

#[test]
fn new_binding_takes_effect() {
    let mut s = stopped();
    s.pending_bind = Some(KeyBindingTarget::Toggle);
    assert!(handle_key_release(&mut s, HotKey(0x20)));
    assert_eq!(s.toggle_key, HotKey(0x20));
    assert_eq!(s.pending_bind, None);
    assert_eq!(s.notice, "Toggle autoclick is now set to Space.");
    assert!(!handle_key_release(&mut s, HotKey::F4()));
    assert!(handle_key_release(&mut s, HotKey(0x20)));
    assert!(s.running);
}

#[test]
fn binding_to_unnamed_key_notice() {
    let mut s = stopped();
    s.pending_bind = Some(KeyBindingTarget::Inventory);
    assert!(apply_pending_bind(&mut s, HotKey(0xBB)));
    assert_eq!(s.notice, "Inventory pause is now set to HotKey(187).");
}

#[test]
fn set_notice_replaces_notice() {
    let mut s = stopped();
    set_notice(&mut s, String::from("hello"));
    assert_eq!(s.notice, "hello");
}

#[test]
fn cps_is_clamped() {
    let mut s = stopped();
    set_cps(&mut s, 0);
    assert_eq!(s.cps, 1);
    assert_eq!(s.notice, "Speed set to 1 CPS.");
    set_cps(&mut s, 250);
    assert_eq!(s.cps, 100);
    assert_eq!(s.notice, "Speed set to 100 CPS.");
    set_cps(&mut s, 42);
    assert_eq!(s.cps, 42);
    assert_eq!(s.notice, "Speed set to 42 CPS.");
}

#[test]
fn running_from_ui() {
    let mut s = stopped();
    s.inv_paused = true;
    set_running(&mut s, true);
    assert!(s.running);
    assert!(!s.inv_paused);
    assert_eq!(s.notice, "Autoclick enabled from UI.");
    set_running(&mut s, false);
    assert!(!s.running);
    assert_eq!(s.notice, "Autoclick disabled from UI.");
}

#[test]
fn stopping_from_ui_keeps_inventory_pause() {
    let mut s = stopped();
    s.inv_paused = true;
    set_running(&mut s, false);
    assert!(s.inv_paused);
}

#[test]
fn bind_targets_are_parsed() {
    assert_eq!(parse_bind_target(&String::from("inventory")), Some(KeyBindingTarget::Inventory));
    assert_eq!(parse_bind_target(&String::from("toggle")), Some(KeyBindingTarget::Toggle));
    assert_eq!(parse_bind_target(&String::from("Toggle")), None);
    assert_eq!(parse_bind_target(&String::from("")), None);
}

#[test]
fn begin_key_bind_sets_pending() {
    let mut s = stopped();
    assert_eq!(begin_key_bind(&mut s, &String::from("inventory")), Ok(()));
    assert_eq!(s.pending_bind, Some(KeyBindingTarget::Inventory));
    assert_eq!(s.notice, "Press any key to change Inventory pause. Escape cancels.");
}

#[test]
fn begin_key_bind_refuses_unknown_target() {
    let mut s = stopped();
    assert_eq!(
        begin_key_bind(&mut s, &String::from("jump")),
        Err(CommandError::InvalidBindTarget)
    );
    assert_eq!(s.pending_bind, None);
    assert_eq!(s.notice, "You can assign any keyboard key.");
}

#[test]
fn set_key_bind_binds_at_once() {
    let mut s = stopped();
    assert_eq!(set_key_bind(&mut s, &String::from("toggle"), 0x41), Ok(()));
    assert_eq!(s.toggle_key, HotKey(0x41));
    assert_eq!(s.pending_bind, None);
    assert_eq!(s.notice, "Toggle autoclick is now set to A.");
}

#[test]
fn set_key_bind_with_conflict_leaves_binding_pending() {
    let mut s = stopped();
    assert_eq!(set_key_bind(&mut s, &String::from("toggle"), 0x45), Ok(()));
    assert_eq!(s.toggle_key, HotKey::F4());
    assert_eq!(s.pending_bind, Some(KeyBindingTarget::Toggle));
}

#[test]
fn set_key_bind_with_escape_cancels() {
    let mut s = stopped();
    assert_eq!(set_key_bind(&mut s, &String::from("inventory"), 0x1B), Ok(()));
    assert_eq!(s.pending_bind, None);
    assert_eq!(s.inventory_key, HotKey::KEY_E());
    assert_eq!(s.notice, "Key binding canceled.");
}

#[test]
fn set_key_bind_refuses_bad_input() {
    let mut s = stopped();
    assert_eq!(
        set_key_bind(&mut s, &String::from("toggle"), 0),
        Err(CommandError::InvalidKeyCode)
    );
    assert_eq!(
        set_key_bind(&mut s, &String::from("toggle"), 256),
        Err(CommandError::InvalidKeyCode)
    );
    assert_eq!(
        set_key_bind(&mut s, &String::from("nope"), 0x41),
        Err(CommandError::InvalidBindTarget)
    );
    assert_eq!(
        set_key_bind(&mut s, &String::from("nope"), 300),
        Err(CommandError::InvalidKeyCode)
    );
    assert_eq!(s.toggle_key, HotKey::F4());
    assert_eq!(s.pending_bind, None);
}

#[test]
fn error_messages() {
    assert_eq!(CommandError::InvalidBindTarget.message(), "Invalid bind target");
    assert_eq!(CommandError::InvalidKeyCode.message(), "Invalid key code");
}

#[test]
fn click_delays() {
    assert_eq!(click_delay_ms(0), 1000);
    assert_eq!(click_delay_ms(1), 1000);
    assert_eq!(click_delay_ms(3), 333);
    assert_eq!(click_delay_ms(13), 76);
    assert_eq!(click_delay_ms(100), 10);
    assert_eq!(click_delay_ms(5000), 1);
}

#[test]
fn ui_state_mirrors_state() {
    let mut s = stopped();
    let ui = to_ui_state(&s);
    assert_eq!(ui.cps, 13);
    assert_eq!(ui.status, "Stopped");
    assert_eq!(ui.inventory_key, "E");
    assert_eq!(ui.toggle_key, "F4");
    assert_eq!(ui.pending_bind, None);
    assert_eq!(ui.notice, "You can assign any keyboard key.");
    assert!(ui.is_elevated);
    s.running = true;
    s.pending_bind = Some(KeyBindingTarget::Toggle);
    let ui = to_ui_state(&s);
    assert!(ui.running);
    assert_eq!(ui.status, "Active");
    assert_eq!(ui.pending_bind, Some(String::from("toggle")));
    s.running = false;
    s.inv_paused = true;
    s.pending_bind = Some(KeyBindingTarget::Inventory);
    let ui = to_ui_state(&s);
    assert!(ui.inv_paused);
    assert_eq!(ui.status, "Paused (inventory)");
    assert_eq!(ui.pending_bind, Some(String::from("inventory")));
}

#[test]
fn hook_events() {
    assert_eq!(hook_event(0, 0x0101, 0x45), KeyEvent::KeyRelease(HotKey(0x45)));
    assert_eq!(hook_event(0, 0x0105, 0xA4), KeyEvent::KeyRelease(HotKey(0xA4)));
    assert_eq!(hook_event(0, 0x0100, 0x45), KeyEvent::KeyPress(HotKey(0x45)));
    assert_eq!(hook_event(3, 0x0104, 0x73), KeyEvent::KeyPress(HotKey(0x73)));
    assert_eq!(hook_event(-1, 0x0101, 0x45), KeyEvent::Other);
    assert_eq!(hook_event(0, 0x0200, 0x45), KeyEvent::Other);
}

#[test]
fn only_releases_are_relevant() {
    assert_eq!(extract_relevant_key(KeyEvent::KeyRelease(HotKey(7))), Some(HotKey(7)));
    assert_eq!(extract_relevant_key(KeyEvent::KeyPress(HotKey(7))), None);
    assert_eq!(extract_relevant_key(KeyEvent::Other), None);
}

#[test]
fn click_is_button_down_then_up_without_move() {
    let inputs = click_inputs();
    assert_eq!(
        inputs,
        [
            MouseInput { dx: 0, dy: 0, mouse_data: 0, flags: 0x0002, time: 0, extra_info: 0 },
            MouseInput { dx: 0, dy: 0, mouse_data: 0, flags: 0x0004, time: 0, extra_info: 0 },
        ]
    );
    for input in inputs.iter() {
        assert_eq!(input.flags & 0x0001, 0);
    }
}

#[test]
fn distinct_keys_have_distinct_labels() {
    let mut labels: Vec<String> = (0u32..=300).map(|c| key_to_label(HotKey(c))).collect();
    assert!(labels.iter().all(|l| !l.is_empty()));
    labels.sort();
    let n = labels.len();
    labels.dedup();
    assert_eq!(labels.len(), n);
    assert_ne!(key_to_label(HotKey(0x30)), key_to_label(HotKey(0x60)));
    assert_ne!(key_to_label(HotKey(0xBE)), key_to_label(HotKey(0x6E)));
}
