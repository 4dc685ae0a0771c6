use openwhisper::hotkey::{parse_hotkey, HotkeyError, KeyModifiers};

#[test]
fn parses_simple_hotkey() {
    let hk = parse_hotkey("Fn", false).expect("valid combo");
    let _ = hk;
}

#[test]
fn accepts_alternate_modifier_names() {
    assert!(parse_hotkey("Control+Alt+A", false).is_ok());
    assert!(parse_hotkey("ctrl+option+a", false).is_ok());
    assert!(parse_hotkey("CmdOrCtrl+Shift+Space", false).is_ok());
    assert!(parse_hotkey("function", false).is_ok());
}

#[test]
fn rejects_hotkey_with_no_key() {
    assert!(parse_hotkey("Cmd+Shift", false).is_err());
}

#[test]
fn rejects_unknown_key() {
    assert!(parse_hotkey("Cmd+Shift+Frobnicate", false).is_err());
}

#[test]
fn parses_letter_and_digit_keys() {
    assert!(parse_hotkey("Ctrl+a", false).is_ok());
    assert!(parse_hotkey("Ctrl+5", false).is_ok());
}

fn mods(super_key: bool, control: bool, alt: bool, shift: bool) -> KeyModifiers {
    KeyModifiers { super_key, control, alt, shift }
}

#[test]
fn hotkey_parts_map_to_modifiers_and_codes() {
    let h = parse_hotkey("Control+Alt+A", false).unwrap();
    assert_eq!(h.modifiers, mods(false, true, true, false));
    assert_eq!(h.code, "KeyA");
    let h = parse_hotkey(" cmd + shift + space ", false).unwrap();
    assert_eq!(h.modifiers, mods(true, false, false, true));
    assert_eq!(h.code, "Space");
    let h = parse_hotkey("Ctrl+5", false).unwrap();
    assert_eq!(h.code, "Digit5");
    let h = parse_hotkey("Return", false).unwrap();
    assert_eq!(h.modifiers, mods(false, false, false, false));
    assert_eq!(h.code, "Enter");
    let h = parse_hotkey("Esc++Tab", false).unwrap();
    assert_eq!(h.code, "Tab");
}

#[test]
fn cmd_or_ctrl_follows_the_platform() {
    let h = parse_hotkey("CmdOrCtrl+K", true).unwrap();
    assert_eq!(h.modifiers, mods(true, false, false, false));
    let h = parse_hotkey("CmdOrCtrl+K", false).unwrap();
    assert_eq!(h.modifiers, mods(false, true, false, false));
}

#[test]
fn hotkey_errors_name_the_culprit() {
    match parse_hotkey("Cmd+Shift+ Frobnicate ", false) {
        Err(HotkeyError::UnknownKey(p)) => assert_eq!(p, "Frobnicate"),
        _ => panic!("expected an unknown key"),
    }
    match parse_hotkey("Cmd+Shift", false) {
        Err(e @ HotkeyError::NoKey(_)) => assert_eq!(e.message(), "no key in hotkey: Cmd+Shift"),
        _ => panic!("expected no key"),
    }
    match parse_hotkey("Bogus+A", false) {
        Err(e) => assert_eq!(e.message(), "unknown key: Bogus"),
        _ => panic!("the first unknown part stops the parse"),
    }
    assert!(parse_hotkey("Ctrl+F1", false).is_err());
    assert!(parse_hotkey("", false).is_err());
}

#[test]
fn spacing_and_modifier_order_do_not_matter() {
    let a = parse_hotkey("Control+Alt+A", false).unwrap();
    let b = parse_hotkey("alt + control + a", false).unwrap();
    assert_eq!(a.modifiers, b.modifiers);
    assert_eq!(a.code, b.code);
    assert_eq!(a.code, "KeyA");
    assert!(a.modifiers.control && a.modifiers.alt && !a.modifiers.shift && !a.modifiers.super_key);
    let c = parse_hotkey("  Shift +Space ", true).unwrap();
    let d = parse_hotkey("space+shift", true).unwrap();
    assert_eq!(c.modifiers, d.modifiers);
    assert_eq!(c.code, d.code);
}
