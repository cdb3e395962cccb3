use exoplanet_idle::{Bounds, Btn, BtnState, Numbers, WrapBox};

#[test]
fn format_small_numbers_plainly() {
    assert_eq!(Numbers::format(0), "0");
    assert_eq!(Numbers::format(7), "7");
    assert_eq!(Numbers::format(9999), "9999");
}

#[test]
fn format_large_numbers_with_suffix() {
    assert_eq!(Numbers::format(10_000), "10.0K");
    assert_eq!(Numbers::format(12_345), "12.3K");
    assert_eq!(Numbers::format(12_350), "12.4K");
    assert_eq!(Numbers::format(12_250), "12.2K");
    assert_eq!(Numbers::format(12_351), "12.4K");
    assert_eq!(Numbers::format(999_999), "1000.0K");
    assert_eq!(Numbers::format(1_000_000), "1.0M");
    assert_eq!(Numbers::format(2_550_000), "2.6M");
    assert_eq!(Numbers::format(1_000_000_000), "1.0B");
    assert_eq!(Numbers::format(u64::MAX), "18446744073.7B");
}

#[test]
fn split_text_wraps_greedily() {
    let lines = WrapBox::split_text("RESEARCH. Scientific data about the Exoplanet.".to_string(), 20);
    assert_eq!(lines, vec!["RESEARCH. Scientific", "data about the", "Exoplanet."]);
}

#[test]
fn split_text_edge_cases() {
    assert!(WrapBox::split_text(String::new(), 20).is_empty());
    assert!(WrapBox::split_text("   \t\n ".to_string(), 20).is_empty());
    assert_eq!(WrapBox::split_text("a  b\tc".to_string(), 20), vec!["a b c"]);
    assert_eq!(WrapBox::split_text("abcdefghij".to_string(), 5), vec!["", "abcdefghij"]);
    assert_eq!(WrapBox::split_text("ab cd".to_string(), 5), vec!["ab cd"]);
    assert_eq!(WrapBox::split_text("ab cde".to_string(), 5), vec!["ab", "cde"]);
}

#[test]
fn wrap_box_layout() {
    let mut b = WrapBox::new("METALS. Crafting components for advanced tech.".to_string(), 0);
    assert_eq!(b.lines.len(), 3);
    assert_eq!(b.bounds, Bounds::new(-320, -320, 112, 36));
    b.update(Bounds::new(10, 100, 50, 20), 8);
    assert_eq!(b.bounds, Bounds::new(68, 92, 112, 36));
    b.update(Bounds::new(400, 390, 50, 20), 8);
    assert_eq!(b.bounds, Bounds::new(280, 364, 112, 36));
}

#[test]
fn button_states_follow_the_pointer() {
    let mut b = Btn::new("OK".to_string(), Bounds::new(10, 10, 20, 10), true, 0);
    b.update((15, 15), false);
    assert_eq!(b.state, BtnState::Hovered);
    b.update((15, 15), true);
    assert_eq!(b.state, BtnState::Pressed);
    b.update((30, 15), true);
    assert_eq!(b.state, BtnState::Normal);
    assert!(b.on_click((10, 10), true));
    assert!(!b.on_click((30, 20), true));
    assert!(!b.on_click((15, 15), false));
    b.interactable = false;
    b.update((15, 15), true);
    assert_eq!(b.state, BtnState::Disabled);
    assert!(!b.on_click((15, 15), true));
}

#[test]
fn buy_button_starts_inactive() {
    let b = Btn::buy();
    assert_eq!(b.string, "+");
    assert!(!b.interactable);
    assert_eq!(b.colors_index, 1);
}

#[test]
fn palettes() {
    assert_eq!(BtnState::Normal.colors(0), (0x222034ff, 0x222034ff, 0xffffffff));
    assert_eq!(BtnState::Hovered.colors(1), (0xffffffff, 0x222034ff, 0x222034ff));
    assert_eq!(BtnState::Disabled.colors(7), (0x222034ff, 0x222034ff, 0x847e87ff));
}
