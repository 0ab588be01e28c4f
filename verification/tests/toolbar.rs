use capscr_plugins::hotbar::{HotbarConfig, HotbarPosition};
use capscr_plugins::hotkey::{
    chars_of, classify, key_strokes, parse_hotkey, split, trim, white_space, KeyPart, KeyStroke,
    VK_ALT, VK_CONTROL, VK_SHIFT,
};
use capscr_plugins::toolbar::{gradient_color, place_bar, rgb_to_colorref};

fn down(key: u16) -> KeyStroke {
    KeyStroke { key, release: false }
}

fn up(key: u16) -> KeyStroke {
    KeyStroke { key, release: true }
}

fn chars(text: &str) -> Vec<char> {
    text.chars().collect()
}

#[test]
fn colours_are_packed_red_first() {
    assert_eq!(rgb_to_colorref([0x11, 0x22, 0x33, 0x44]), 0x0033_2211);
    assert_eq!(gradient_color([0x11, 0x22, 0x33, 0x44]), 0x4433_2211);
    assert_eq!(rgb_to_colorref([255, 255, 255, 255]), 0x00ff_ffff);
    assert_eq!(gradient_color([255, 255, 255, 255]), 0xffff_ffff);
    assert_eq!(gradient_color([30, 30, 30, 180]), 0xb41e_1e1e);
    assert_eq!(rgb_to_colorref([0, 0, 0, 9]), 0);
}

#[test]
fn default_bar_is_182_by_56() {
    let config = HotbarConfig::default();
    assert_eq!(config.bar_size(), Some((182, 56)));
}

#[test]
fn bar_without_buttons_is_just_padding() {
    let mut config = HotbarConfig::default();
    config.buttons.clear();
    assert_eq!(config.bar_size(), Some((20, 56)));
    config.buttons = HotbarConfig::default().buttons;
    config.buttons.truncate(1);
    assert_eq!(config.bar_size(), Some((56, 56)));
}

#[test]
fn bar_too_large_for_a_window_has_no_size() {
    let mut config = HotbarConfig::default();
    config.size.button_width = u32::MAX;
    assert_eq!(config.bar_size(), None);
    let mut config = HotbarConfig::default();
    config.size.padding = 0x4000_0000;
    assert_eq!(config.bar_size(), None);
    let mut config = HotbarConfig::default();
    config.size.button_height = i32::MAX as u32 - 19;
    assert_eq!(config.bar_size(), None);
    config.size.button_height = i32::MAX as u32 - 20;
    assert_eq!(config.bar_size(), Some((182, i32::MAX)));
}

#[test]
fn bar_is_placed_by_its_position() {
    let place = |position| place_bar(position, 1920, 1080, 182, 56);
    assert_eq!(place(HotbarPosition::Top), (869, 10));
    assert_eq!(place(HotbarPosition::Bottom), (869, 974));
    assert_eq!(place(HotbarPosition::Left), (10, 512));
    assert_eq!(place(HotbarPosition::Right), (1728, 512));
    assert_eq!(place(HotbarPosition::TopLeft), (10, 10));
    assert_eq!(place(HotbarPosition::TopRight), (1728, 10));
    assert_eq!(place(HotbarPosition::BottomLeft), (10, 974));
    assert_eq!(place(HotbarPosition::BottomRight), (1728, 974));
    assert_eq!(place(HotbarPosition::Custom { x: -5, y: 7 }), (-5, 7));
}

#[test]
fn centring_rounds_towards_zero() {
    assert_eq!(place_bar(HotbarPosition::Top, 101, 100, 0, 0), (50, 10));
    assert_eq!(place_bar(HotbarPosition::Top, 100, 100, 201, 0), (-50, 10));
    assert_eq!(place_bar(HotbarPosition::Left, 100, 100, 0, 203), (10, -51));
    assert_eq!(
        place_bar(HotbarPosition::BottomRight, i32::MIN, i32::MIN, i32::MAX, i32::MAX),
        (-4294967305, -4294967345)
    );
}

#[test]
fn click_lands_on_the_button_under_it() {
    let config = HotbarConfig::default();
    assert_eq!(config.button_at(10, 10), Some(0));
    assert_eq!(config.button_at(45, 45), Some(0));
    assert_eq!(config.button_at(46, 20), None);
    assert_eq!(config.button_at(51, 20), None);
    assert_eq!(config.button_at(52, 20), Some(1));
    assert_eq!(config.button_at(94, 20), Some(2));
    assert_eq!(config.button_at(136, 20), Some(3));
    assert_eq!(config.button_at(171, 45), Some(3));
    assert_eq!(config.button_at(172, 20), None);
    assert_eq!(config.button_at(9, 20), None);
    assert_eq!(config.button_at(20, 9), None);
    assert_eq!(config.button_at(20, 46), None);
    assert_eq!(config.button_at(-1, -1), None);
    assert_eq!(config.button_at(i32::MAX, 20), None);
}

#[test]
fn click_on_touching_buttons_takes_the_first() {
    let mut config = HotbarConfig::default();
    config.size.spacing = 0;
    config.size.padding = 0;
    assert_eq!(config.button_at(35, 0), Some(0));
    assert_eq!(config.button_at(36, 0), Some(1));
    assert_eq!(config.button_at(143, 35), Some(3));
    assert_eq!(config.button_at(144, 35), None);
    config.size.button_width = 0;
    assert_eq!(config.button_at(0, 0), None);
}

#[test]
fn hotkey_presses_modifiers_then_the_letter() {
    assert_eq!(
        parse_hotkey("Ctrl+Shift+S"),
        vec![
            down(VK_CONTROL),
            down(VK_SHIFT),
            down(0x53),
            up(0x53),
            up(VK_SHIFT),
            up(VK_CONTROL)
        ]
    );
    assert_eq!(
        parse_hotkey("Control+ALT+x"),
        vec![down(VK_CONTROL), down(VK_ALT), down(0x58), up(0x58), up(VK_ALT), up(VK_CONTROL)]
    );
}

#[test]
fn hotkey_parts_are_trimmed_and_read_in_any_case() {
    assert_eq!(
        parse_hotkey("  ctrl +\tsHiFt + g "),
        vec![
            down(VK_CONTROL),
            down(VK_SHIFT),
            down(0x47),
            up(0x47),
            up(VK_SHIFT),
            up(VK_CONTROL)
        ]
    );
    // the long s has the capital S for its uppercase form
    assert_eq!(parse_hotkey("\u{17f}"), vec![down(0x53), up(0x53)]);
}

#[test]
fn hotkey_parts_that_name_no_key_press_nothing() {
    assert_eq!(parse_hotkey(""), vec![]);
    assert_eq!(parse_hotkey("+"), vec![]);
    assert_eq!(parse_hotkey("F4"), vec![]);
    assert_eq!(parse_hotkey("1"), vec![]);
    assert_eq!(parse_hotkey("Alt+F4"), vec![down(VK_ALT), up(VK_ALT)]);
    assert_eq!(parse_hotkey("Ctrl++S"), vec![down(VK_CONTROL), down(0x53), up(0x53), up(VK_CONTROL)]);
    assert_eq!(parse_hotkey("C trl+S"), vec![down(0x53), up(0x53)]);
}

#[test]
fn last_letter_of_a_hotkey_wins() {
    assert_eq!(parse_hotkey("a+b"), vec![down(0x42), up(0x42)]);
    assert_eq!(
        parse_hotkey("a+shift+b+shift"),
        vec![down(VK_SHIFT), down(VK_SHIFT), down(0x42), up(0x42), up(VK_SHIFT), up(VK_SHIFT)]
    );
}

#[test]
fn parts_are_told_apart_by_their_whole_text() {
    assert_eq!(classify(&chars("CTRL")), KeyPart::Control);
    assert_eq!(classify(&chars("CONTROL")), KeyPart::Control);
    assert_eq!(classify(&chars("SHIFT")), KeyPart::Shift);
    assert_eq!(classify(&chars("ALT")), KeyPart::Alt);
    assert_eq!(classify(&chars("A")), KeyPart::Letter(65));
    assert_eq!(classify(&chars("Z")), KeyPart::Letter(90));
    assert_eq!(classify(&chars("a")), KeyPart::Letter(65));
    assert_eq!(classify(&chars("z")), KeyPart::Letter(90));
    assert_eq!(classify(&chars("ctrl")), KeyPart::Other);
    assert_eq!(classify(&chars("CTRLS")), KeyPart::Other);
    assert_eq!(classify(&chars("CTR")), KeyPart::Other);
    assert_eq!(classify(&chars("@")), KeyPart::Other);
    assert_eq!(classify(&chars("[")), KeyPart::Other);
    assert_eq!(classify(&chars("\u{c9}")), KeyPart::Other);
    assert_eq!(classify(&chars("")), KeyPart::Other);
}

#[test]
fn strokes_release_in_reverse() {
    let parts = vec![KeyPart::Alt, KeyPart::Other, KeyPart::Control, KeyPart::Letter(70)];
    assert_eq!(
        key_strokes(&parts),
        vec![down(VK_ALT), down(VK_CONTROL), down(70), up(70), up(VK_CONTROL), up(VK_ALT)]
    );
    assert_eq!(key_strokes(&vec![]), vec![]);
    assert_eq!(key_strokes(&vec![KeyPart::Letter(65)]), vec![down(65), up(65)]);
}

#[test]
fn text_is_cut_at_every_separator() {
    assert_eq!(split(&chars("a+b+"), '+'), vec![chars("a"), chars("b"), chars("")]);
    assert_eq!(split(&chars(""), '+'), vec![chars("")]);
    assert_eq!(split(&chars("abc"), '+'), vec![chars("abc")]);
    assert_eq!(split(&chars("++"), '+'), vec![chars(""), chars(""), chars("")]);
    assert_eq!(split(&chars("a b,c"), ','), vec![chars("a b"), chars("c")]);
}

#[test]
fn white_space_is_what_the_standard_library_takes_for_it() {
    let mut count = 0;
    for code in 0..=0x10FFFFu32 {
        if let Some(c) = char::from_u32(code) {
            assert_eq!(white_space(c), c.is_whitespace(), "at {:#x}", code);
            if white_space(c) {
                count += 1;
            }
        }
    }
    assert_eq!(count, 25);
    assert!(white_space('\t'));
    assert!(white_space(' '));
    assert!(white_space('\u{3000}'));
    assert!(!white_space('\u{200b}'));
    assert!(!white_space('\u{180e}'));
    assert!(!white_space('a'));
}

#[test]
fn trimming_removes_white_space_at_both_ends_only() {
    for text in [
        "",
        " ",
        "a",
        "  a b  ",
        "\t\r\n x \u{a0}\u{2003}",
        "\u{3000}\u{1680}",
        "ctrl ",
        " + ",
        "\u{200b} a \u{200b}",
        "a\u{85}",
        "\u{2028}\u{2029}\u{202f}\u{205f}z\u{b}\u{c}",
    ] {
        assert_eq!(trim(&chars(text)), chars(text.trim()), "for {:?}", text);
    }
    assert_eq!(trim(&chars("  a b  ")), chars("a b"));
}

#[test]
fn characters_are_listed_in_order() {
    assert_eq!(chars_of(""), chars(""));
    assert_eq!(chars_of("Ctrl+S"), vec!['C', 't', 'r', 'l', '+', 'S']);
    assert_eq!(chars_of("a\u{17f}\u{1f600}b"), vec!['a', '\u{17f}', '\u{1f600}', 'b']);
}
