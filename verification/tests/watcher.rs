use clipboard_history::codec::{decode_image, encode_image};
use clipboard_history::paste::{
    classify_focused_window, is_terminal_text, paste_begin, paste_content, paste_item,
    paste_keystroke, paste_step, payload, FocusClass, PasteAction, PasteStage, Payload,
    WindowQuery, FOCUS_SETTLE_MS,
};
use clipboard_history::settings::{shortcut_action, Placement, ShortcutAction};
use clipboard_history::text::text_after_first;
use clipboard_history::{
    ClipboardItem, Database, DbState, ItemKind, RawImage, SettingValue, Settings, Watcher,
};

fn two_by_one() -> RawImage {
    RawImage { width: 2, height: 1, rgba: vec![255, 0, 0, 255, 0, 0, 255, 128] }
}

#[test]
fn watcher_takes_new_text_once() {
    let mut watcher = Watcher::new();
    let first = watcher.observe_text(Some("hello".to_string()), "id1".to_string(), 42);
    assert_eq!(
        first,
        Some(ClipboardItem {
            id: "id1".to_string(),
            kind: ItemKind::Text,
            content: "hello".to_string(),
            timestamp: 42,
            is_pinned: false,
        })
    );
    assert_eq!(watcher.last_text, "hello");
    let again = watcher.observe_text(Some("hello".to_string()), "id2".to_string(), 43);
    assert_eq!(again, None);
    assert_eq!(watcher.last_text, "hello");
}

#[test]
fn watcher_passes_over_empty_and_failed_readings() {
    let mut watcher = Watcher::new();
    assert_eq!(watcher.observe_text(None, "a".to_string(), 1), None);
    assert_eq!(watcher.observe_text(Some(String::new()), "b".to_string(), 2), None);
    watcher.observe_text(Some("x".to_string()), "c".to_string(), 3);
    assert_eq!(watcher.observe_text(Some(String::new()), "d".to_string(), 4), None);
    assert_eq!(watcher.observe_text(None, "e".to_string(), 5), None);
    assert_eq!(watcher.last_text, "x");
    assert_eq!(watcher.last_image, "");
}

#[test]
fn watcher_takes_new_image_in_portable_form() {
    let mut watcher = Watcher::new();
    let image = two_by_one();
    let entry = watcher.observe_image(Some(&image), "img".to_string(), 7).unwrap();
    assert_eq!(entry.kind, ItemKind::Image);
    assert_eq!(entry.id, "img");
    assert_eq!(entry.timestamp, 7);
    assert!(!entry.is_pinned);
    assert_eq!(Some(entry.content.clone()), encode_image(&image));
    assert_eq!(watcher.last_image, entry.content);
    assert_eq!(watcher.last_text, "");
    assert_eq!(watcher.observe_image(Some(&image), "img2".to_string(), 8), None);
    assert_eq!(watcher.observe_image(None, "img3".to_string(), 9), None);
}

#[test]
fn watcher_passes_over_image_with_short_buffer() {
    let mut watcher = Watcher::new();
    let image = RawImage { width: 2, height: 2, rgba: vec![0, 0, 0, 255] };
    assert_eq!(encode_image(&image), None);
    assert_eq!(watcher.observe_image(Some(&image), "x".to_string(), 1), None);
    assert_eq!(watcher.last_image, "");
}

#[test]
fn watcher_encoded_image_step() {
    let mut watcher = Watcher::new();
    let entry = watcher.observe_encoded_image(Some("QUJD".to_string()), "i".to_string(), 5);
    assert_eq!(
        entry,
        Some(ClipboardItem::new("i".to_string(), ItemKind::Image, "QUJD".to_string(), 5))
    );
    assert_eq!(watcher.observe_encoded_image(Some("QUJD".to_string()), "j".to_string(), 6), None);
    assert_eq!(watcher.observe_encoded_image(Some(String::new()), "k".to_string(), 6), None);
    assert_eq!(watcher.last_image, "QUJD");
}

#[test]
fn poll_text_gives_entries_for_the_store() {
    let mut watcher = Watcher::new();
    let mut store = DbState::new(None);
    let first = watcher.poll_text(Some("one".to_string())).unwrap();
    store.add_item(first);
    assert_eq!(watcher.poll_text(Some("one".to_string())), None);
    assert_eq!(watcher.poll_text(None), None);
    assert_eq!(watcher.poll_text(Some(String::new())), None);
    let second = watcher.poll_text(Some("two".to_string())).unwrap();
    store.add_item(second);
    let history = store.get_history();
    assert_eq!(history.len(), 2);
    assert_eq!(history[0].content, "two");
    assert_eq!(history[1].content, "one");
    assert_eq!(history[0].kind, ItemKind::Text);
    assert!(!history[0].is_pinned);
    assert_ne!(history[0].id, history[1].id);
    assert_eq!(history[0].id.len(), 36);
    assert!(history[0].timestamp >= history[1].timestamp);
    assert!(history[1].timestamp > 1_600_000_000_000);
    assert_eq!(watcher.last_text, "two");
}

#[test]
fn poll_text_gives_news_that_the_store_drops() {
    let mut watcher = Watcher::new();
    let mut store = DbState::new(Some(Database {
        history: vec![ClipboardItem::new("a".to_string(), ItemKind::Text, "one".to_string(), 1)],
        settings: Settings::default(),
    }));
    let entry = watcher.poll_text(Some("one".to_string())).unwrap();
    store.add_item(entry);
    assert_eq!(store.get_history().len(), 1);
    assert_eq!(store.get_history()[0].id, "a");
}

#[test]
fn poll_image_gives_entries_for_the_store() {
    let mut watcher = Watcher::new();
    let image = two_by_one();
    let entry = watcher.poll_image(Some(&image)).unwrap();
    assert_eq!(entry.kind, ItemKind::Image);
    assert_eq!(Some(entry.content.clone()), encode_image(&image));
    assert_eq!(entry.id.len(), 36);
    assert_eq!(watcher.last_image, entry.content);
    assert_eq!(watcher.poll_image(Some(&image)), None);
    assert_eq!(watcher.poll_image(None), None);
    let short = RawImage { width: 4, height: 4, rgba: vec![1, 2, 3, 4] };
    assert_eq!(watcher.poll_image(Some(&short)), None);
    assert_eq!(watcher.last_image, entry.content);
}

#[test]
fn portable_text_is_base64_of_a_png_file() {
    let text = encode_image(&two_by_one()).unwrap();
    assert!(text.starts_with("iVBORw0KGgo"));
    assert_eq!(text.len() % 4, 0);
}

#[test]
fn portable_text_restores_the_image() {
    let image = two_by_one();
    let text = encode_image(&image).unwrap();
    assert_eq!(decode_image(&text), Some(image));
}

#[test]
fn data_uri_prefix_is_passed_over() {
    let image = two_by_one();
    let text = format!("data:image/png;base64,{}", encode_image(&image).unwrap());
    assert_eq!(decode_image(&text), Some(image));
}

#[test]
fn text_that_is_no_image_restores_nothing() {
    assert_eq!(decode_image("not base64 at all!"), None);
    assert_eq!(decode_image("QUJD"), None);
    assert_eq!(decode_image(""), None);
}

#[test]
fn text_after_first_comma() {
    assert_eq!(text_after_first("a,b,c", ','), "b,c");
    assert_eq!(text_after_first("abc", ','), "abc");
    assert_eq!(text_after_first(",", ','), "");
    assert_eq!(text_after_first("", ','), "");
    assert_eq!(text_after_first("é,ü", ','), "ü");
}

#[test]
fn pasting_text_writes_it_as_it_is() {
    let item = ClipboardItem::new("a".to_string(), ItemKind::Text, "x,y".to_string(), 1);
    assert_eq!(payload(&item), Some(Payload::Text("x,y".to_string())));
    assert_eq!(paste_content("raw".to_string()), Payload::Text("raw".to_string()));
}

#[test]
fn pasting_an_entry_by_id() {
    let image = two_by_one();
    let state = DbState::new(Some(Database {
        history: vec![
            ClipboardItem::new("t".to_string(), ItemKind::Text, "hello".to_string(), 1),
            ClipboardItem::new("i".to_string(), ItemKind::Image, encode_image(&image).unwrap(), 2),
            ClipboardItem::new("bad".to_string(), ItemKind::Image, "%%%".to_string(), 3),
        ],
        settings: Settings::default(),
    }));
    assert_eq!(paste_item(&state, "t"), Some(Payload::Text("hello".to_string())));
    assert_eq!(paste_item(&state, "i"), Some(Payload::Image(image)));
    assert_eq!(paste_item(&state, "bad"), None);
    assert_eq!(paste_item(&state, "nobody"), None);
}

#[test]
fn terminal_class_names() {
    assert!(is_terminal_text("gnome-terminal-server"));
    assert!(is_terminal_text("xterm"));
    assert!(is_terminal_text("alacritty"));
    assert!(is_terminal_text("kitty"));
    assert!(is_terminal_text("org.kde.konsole"));
    assert!(!is_terminal_text("firefox"));
    assert!(!is_terminal_text(""));
    assert!(!is_terminal_text("XTERM"));
}

#[test]
fn focused_terminal_is_found_in_any_case() {
    let query = WindowQuery { success: true, stdout: b"XTerm\n".to_vec() };
    assert_eq!(classify_focused_window(Some(&query)), FocusClass::Terminal);
    let query = WindowQuery { success: true, stdout: b"Alacritty\n".to_vec() };
    assert_eq!(classify_focused_window(Some(&query)), FocusClass::Terminal);
    let query = WindowQuery { success: true, stdout: vec![0xff, b'K', b'i', b't', b't', b'y'] };
    assert_eq!(classify_focused_window(Some(&query)), FocusClass::Terminal);
}

#[test]
fn failed_or_unmatched_query_is_standard() {
    assert_eq!(classify_focused_window(None), FocusClass::Standard);
    let failed = WindowQuery { success: false, stdout: b"xterm\n".to_vec() };
    assert_eq!(classify_focused_window(Some(&failed)), FocusClass::Standard);
    let other = WindowQuery { success: true, stdout: b"Firefox\n".to_vec() };
    assert_eq!(classify_focused_window(Some(&other)), FocusClass::Standard);
    let empty = WindowQuery { success: true, stdout: Vec::new() };
    assert_eq!(classify_focused_window(Some(&empty)), FocusClass::Standard);
}

#[test]
fn keystroke_for_each_class() {
    assert_eq!(paste_keystroke(FocusClass::Terminal), "ctrl+shift+v");
    assert_eq!(paste_keystroke(FocusClass::Standard), "ctrl+v");
    assert_eq!(paste_keystroke(classify_focused_window(None)), "ctrl+v");
}

#[test]
fn shortcut_follows_the_setting() {
    assert_eq!(
        shortcut_action("useInternalShortcut", &SettingValue::Bool(true)),
        ShortcutAction::Register
    );
    assert_eq!(
        shortcut_action("useInternalShortcut", &SettingValue::Bool(false)),
        ShortcutAction::Unregister
    );
    assert_eq!(
        shortcut_action("useInternalShortcut", &SettingValue::Integer(1)),
        ShortcutAction::Nothing
    );
    assert_eq!(shortcut_action("zoom", &SettingValue::Bool(true)), ShortcutAction::Nothing);
}

#[test]
fn placement_follows_the_position() {
    let mut settings = Settings::default();
    assert_eq!(settings.placement(), Placement::AtCursor);
    settings.position = "center".to_string();
    assert_eq!(settings.placement(), Placement::Centered);
    settings.position = "elsewhere".to_string();
    assert_eq!(settings.placement(), Placement::Unchanged);
}

fn actions_from(mut stage: PasteStage, query: Option<&WindowQuery>) -> Vec<PasteAction> {
    let mut actions = Vec::new();
    for _ in 0..10 {
        let (next, action) = paste_step(stage, query);
        actions.push(action);
        if action == PasteAction::Stop {
            break;
        }
        stage = next;
    }
    actions
}

#[test]
fn paste_with_payload_runs_its_steps_in_order() {
    assert_eq!(FOCUS_SETTLE_MS, 100);
    let stage = paste_begin(&Some(Payload::Text("x".to_string())));
    assert_eq!(stage, PasteStage::Written);
    let terminal = WindowQuery { success: true, stdout: b"kitty\n".to_vec() };
    assert_eq!(
        actions_from(stage, Some(&terminal)),
        vec![
            PasteAction::HideWindow,
            PasteAction::Wait(100),
            PasteAction::QueryFocus,
            PasteAction::SendKeys(FocusClass::Terminal),
            PasteAction::Stop,
        ]
    );
    assert_eq!(
        actions_from(stage, None),
        vec![
            PasteAction::HideWindow,
            PasteAction::Wait(100),
            PasteAction::QueryFocus,
            PasteAction::SendKeys(FocusClass::Standard),
            PasteAction::Stop,
        ]
    );
}

#[test]
fn paste_without_payload_stops_at_once() {
    let stage = paste_begin(&None);
    assert_eq!(stage, PasteStage::Finished);
    assert_eq!(actions_from(stage, None), vec![PasteAction::Stop]);
    let state = DbState::new(None);
    assert_eq!(paste_begin(&paste_item(&state, "nobody")), PasteStage::Finished);
}

#[test]
fn bytes_that_are_no_image_file_restore_nothing() {
    // "hello world", which is base64 text but no image file
    assert_eq!(decode_image("aGVsbG8gd29ybGQ="), None);
    // the start of a PNG file and nothing after it
    assert_eq!(decode_image("iVBORw0KGgo="), None);
}

#[test]
fn portable_text_holds_no_comma() {
    let image = RawImage { width: 3, height: 2, rgba: (0..24).map(|i| (i * 11) as u8).collect() };
    let text = encode_image(&image).unwrap();
    assert!(!text.contains(','));
    assert_eq!(text_after_first(&text, ','), text);
}
