use rest_reminder::icon::{icon_rgba, ICON_BYTES, ICON_SIZE};
use rest_reminder::text::same_text;
use rest_reminder::tray::{read_icon_event, read_menu_click, QUIT_MENU_ID, SHOW_MENU_ID};
use rest_reminder::{AppConfig, IconEvent, MouseButton, Reminder, TrayEvent, TrayMessage};

#[test]
fn the_two_menu_entries_are_known() {
    assert_eq!(SHOW_MENU_ID, "show");
    assert_eq!(QUIT_MENU_ID, "quit");
    assert_eq!(read_menu_click("show"), Some(TrayEvent::ShowWindow));
    assert_eq!(read_menu_click("quit"), Some(TrayEvent::Quit));
}

#[test]
fn other_menu_entries_ask_for_nothing() {
    for id in ["", "Show", "QUIT", "show ", " quit", "sho", "quits", "1", "\u{663e}\u{793a}"] {
        assert_eq!(read_menu_click(id), None, "{:?}", id);
    }
}

#[test]
fn left_clicks_on_the_icon_count() {
    assert!(matches!(read_icon_event(IconEvent::Click(MouseButton::Left)), Some(TrayMessage::IconClick)));
    assert!(matches!(
        read_icon_event(IconEvent::DoubleClick(MouseButton::Left)),
        Some(TrayMessage::IconClick)
    ));
}

#[test]
fn other_icon_events_do_not_count() {
    for event in [
        IconEvent::Click(MouseButton::Right),
        IconEvent::Click(MouseButton::Middle),
        IconEvent::DoubleClick(MouseButton::Right),
        IconEvent::DoubleClick(MouseButton::Middle),
        IconEvent::Hover,
    ] {
        assert!(read_icon_event(event).is_none(), "{:?}", event);
    }
}

#[test]
fn messages_turn_into_events() {
    assert_eq!(TrayMessage::IconClick.event(), Some(TrayEvent::ShowWindow));
    assert_eq!(TrayMessage::MenuClick("show".to_string()).event(), Some(TrayEvent::ShowWindow));
    assert_eq!(TrayMessage::MenuClick("quit".to_string()).event(), Some(TrayEvent::Quit));
    assert_eq!(TrayMessage::MenuClick("about".to_string()).event(), None);
}

#[test]
fn a_cloned_message_asks_for_the_same() {
    let message = TrayMessage::MenuClick("quit".to_string());
    let copy = message.clone();
    assert!(matches!(&copy, TrayMessage::MenuClick(id) if id == "quit"));
    assert_eq!(copy.event(), message.event());
    assert!(matches!(TrayMessage::IconClick.clone(), TrayMessage::IconClick));
}

#[test]
fn tray_messages_raise_intents() {
    let mut r = Reminder::new(AppConfig::default(), false);
    r.process_tray_message(TrayMessage::MenuClick("settings".to_string()));
    assert!(!r.flags().show && !r.flags().quit);
    r.process_tray_message(TrayMessage::MenuClick("show".to_string()));
    assert!(r.flags().show && !r.flags().quit);

    let mut clicked = Reminder::new(AppConfig::default(), false);
    clicked.process_tray_message(TrayMessage::IconClick);
    assert!(clicked.flags().show && !clicked.flags().quit);

    let mut quitting = Reminder::new(AppConfig::default(), false);
    quitting.process_tray_message(TrayMessage::MenuClick("quit".to_string()));
    assert!(quitting.flags().quit && !quitting.flags().show);
}

#[test]
fn same_text_compares_character_by_character() {
    assert!(same_text("", ""));
    assert!(same_text("show", "show"));
    assert!(!same_text("show", "shot"));
    assert!(!same_text("show", "sho"));
    assert!(!same_text("", "x"));
    assert!(same_text("\u{2764}\u{fe0f}", "\u{2764}\u{fe0f}"));
    assert!(!same_text("\u{2764}\u{fe0f}", "\u{2764}"));
    assert!(!same_text("ab", "\u{e9}"));
}

fn pixel(bytes: &[u8], x: usize, y: usize) -> [u8; 4] {
    let at = (y * 64 + x) * 4;
    [bytes[at], bytes[at + 1], bytes[at + 2], bytes[at + 3]]
}

#[test]
fn the_icon_is_a_red_disc_on_a_clear_ground() {
    let bytes = icon_rgba();
    assert_eq!(ICON_SIZE, 64);
    assert_eq!(ICON_BYTES, 64 * 64 * 4);
    assert_eq!(bytes.len(), ICON_BYTES);
    assert_eq!(pixel(&bytes, 32, 32), [255, 99, 71, 255]);
    assert_eq!(pixel(&bytes, 0, 0), [0, 0, 0, 0]);
    assert_eq!(pixel(&bytes, 63, 63), [0, 0, 0, 0]);
    assert_eq!(pixel(&bytes, 57, 32), [255, 99, 71, 255]);
    assert_eq!(pixel(&bytes, 58, 32), [0, 0, 0, 0]);
    assert_eq!(pixel(&bytes, 7, 32), [255, 99, 71, 255]);
    assert_eq!(pixel(&bytes, 6, 32), [0, 0, 0, 0]);
    assert_eq!(pixel(&bytes, 32, 57), [255, 99, 71, 255]);
    assert_eq!(pixel(&bytes, 32, 58), [0, 0, 0, 0]);
    assert_eq!(pixel(&bytes, 47, 52), [255, 99, 71, 255]);
    assert_eq!(pixel(&bytes, 48, 52), [0, 0, 0, 0]);
}

#[test]
fn every_icon_pixel_is_red_exactly_on_the_disc() {
    let bytes = icon_rgba();
    let mut on_disc = 0;
    for y in 0..64i32 {
        for x in 0..64i32 {
            let inside = (x - 32).pow(2) + (y - 32).pow(2) <= 625;
            let expected = if inside { [255, 99, 71, 255] } else { [0, 0, 0, 0] };
            assert_eq!(pixel(&bytes, x as usize, y as usize), expected, "({}, {})", x, y);
            if inside {
                on_disc += 1;
            }
        }
    }
    assert_eq!(on_disc, 1961);
}
