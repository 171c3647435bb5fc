use golemian_autoclick::classic::{
    classic_key_release, classic_status, parse_inventory_key, toggle_clicking, ClickFlags,
};
use golemian_autoclick::hotkey::HotKey;
use golemian_autoclick::wide::to_wide;

#[test]
fn wide_strings_end_with_zero() {
    assert_eq!(to_wide(""), vec![0u16]);
    assert_eq!(to_wide("runas"), vec![0x72, 0x75, 0x6E, 0x61, 0x73, 0]);
}

#[test]
fn wide_strings_match_std_utf16() {
    let text = "C:\\Jeux\\auto€clic\u{1F600}.exe";
    let mut expected: Vec<u16> = text.encode_utf16().collect();
    expected.push(0);
    assert_eq!(to_wide(text), expected);
    assert_eq!(to_wide("\u{1F600}"), vec![0xD83D, 0xDE00, 0]);
}

#[test]
fn inventory_key_text_is_parsed() {
    assert_eq!(parse_inventory_key("e"), Some(HotKey(0x45)));
    assert_eq!(parse_inventory_key("E"), Some(HotKey(0x45)));
    assert_eq!(parse_inventory_key("  E \n"), Some(HotKey(0x45)));
    assert_eq!(parse_inventory_key("\u{3000}e\u{a0}"), Some(HotKey(0x45)));
    assert_eq!(parse_inventory_key("F4"), Some(HotKey(0x73)));
    assert_eq!(parse_inventory_key("\tf4"), Some(HotKey(0x73)));
    assert_eq!(parse_inventory_key("f5"), None);
    assert_eq!(parse_inventory_key("ee"), None);
    assert_eq!(parse_inventory_key("f 4"), None);
    assert_eq!(parse_inventory_key(""), None);
    assert_eq!(parse_inventory_key("   "), None);
}

#[test]
fn toggle_clicking_switches_and_reports() {
    let mut flags = ClickFlags { running: false, inv_paused: true };
    assert_eq!(toggle_clicking(&mut flags), "Clics actifs");
    assert_eq!(flags, ClickFlags { running: true, inv_paused: false });
    assert_eq!(toggle_clicking(&mut flags), "Arrêté");
    assert_eq!(flags, ClickFlags { running: false, inv_paused: false });
}

#[test]
fn classic_listener() {
    let mut flags = ClickFlags { running: true, inv_paused: false };
    classic_key_release(&mut flags, HotKey(0x45), HotKey(0x45));
    assert_eq!(flags, ClickFlags { running: false, inv_paused: true });
    classic_key_release(&mut flags, HotKey(0x45), HotKey(0x45));
    assert_eq!(flags, ClickFlags { running: true, inv_paused: false });
    classic_key_release(&mut flags, HotKey(0x73), HotKey(0x45));
    assert_eq!(flags, ClickFlags { running: false, inv_paused: false });
    classic_key_release(&mut flags, HotKey(0x45), HotKey(0x45));
    assert_eq!(flags, ClickFlags { running: false, inv_paused: false });
    classic_key_release(&mut flags, HotKey(0x41), HotKey(0x45));
    assert_eq!(flags, ClickFlags { running: false, inv_paused: false });
}

#[test]
fn f4_toggles_even_when_it_is_the_inventory_key() {
    let mut flags = ClickFlags { running: true, inv_paused: false };
    classic_key_release(&mut flags, HotKey(0x73), HotKey(0x73));
    assert_eq!(flags, ClickFlags { running: false, inv_paused: false });
}

#[test]
fn classic_status_lines() {
    assert_eq!(classic_status(ClickFlags { running: true, inv_paused: false }), "Active click");
    assert_eq!(classic_status(ClickFlags { running: false, inv_paused: true }), "Paused (inventory)");
    assert_eq!(classic_status(ClickFlags { running: false, inv_paused: false }), "Stopped");
}
