use remvora_agent::desktop::{
    clipboard_ack, clipboard_read_message, clipboard_reply, command, copy_letter, frame_plan, input_event,
    input_message_accepted, key, select_display, selected,
    selection_value, Action, ClipboardReply, Command, DisplayInfo, FramePlan, InputError, InputEvent,
    InputState, KeyCode, MouseButton, VideoSettings,
};

#[test]
fn rejects_unknown_multi_character_keys() {
    assert!(key("RunShellCommand").is_none());
    assert!(key("Enter").is_some());
}

#[test]
fn key_names_map_to_keys() {
    assert_eq!(key("Enter"), Some(KeyCode::Return));
    assert_eq!(key("F12"), Some(KeyCode::F12));
    assert_eq!(key("a"), Some(KeyCode::Unicode('a')));
    assert_eq!(key("é"), Some(KeyCode::Unicode('é')));
    assert_eq!(key(""), None);
}

#[test]
fn video_settings_are_bounded_and_encoder_reconfigures() {
    assert!(VideoSettings::validated(0, 1_000_000, 1280).is_err());
    assert!(VideoSettings::validated(60, 1_000_000, 1280).is_err());
    assert!(VideoSettings::validated(15, 50_000_000, 1280).is_err());
    assert!(VideoSettings::validated(15, 1_000_000, 9000).is_err());
    for fps in [3, 15, 30] {
        let s = VideoSettings::validated(fps, 800_000, 1280).unwrap();
        assert_eq!((s.fps, s.bitrate, s.width), (fps, 800_000, 1280));
    }
    assert_eq!(VideoSettings::validated(15, 800_000, 1281).unwrap().width, 1280);
    let d = VideoSettings::default();
    assert_eq!((d.fps, d.bitrate, d.width), (15, 1_200_000, 1280));
}

#[test]
fn held_keys_and_buttons_are_released() {
    let mut s = InputState::new(false, false);
    assert_eq!(
        s.apply(InputEvent::Key { down: true, key: Some(KeyCode::Shift) }).unwrap(),
        vec![Action::PressKey(KeyCode::Shift)]
    );
    s.apply(InputEvent::Key { down: true, key: Some(KeyCode::Shift) }).unwrap();
    s.apply(InputEvent::Key { down: true, key: Some(KeyCode::Unicode('a')) }).unwrap();
    s.apply(InputEvent::Button { down: true, button: Some(2) }).unwrap();
    assert_eq!(s.apply(InputEvent::Button { down: true, button: Some(7) }).unwrap(), vec![]);
    assert_eq!(
        s.apply(InputEvent::ReleaseAll).unwrap(),
        vec![
            Action::ReleaseKey(KeyCode::Shift),
            Action::ReleaseKey(KeyCode::Unicode('a')),
            Action::ReleaseButton(MouseButton::Right)
        ]
    );
    assert_eq!(s.release_all(), vec![]);
    s.apply(InputEvent::Key { down: true, key: Some(KeyCode::Alt) }).unwrap();
    s.apply(InputEvent::Key { down: false, key: Some(KeyCode::Alt) }).unwrap();
    assert_eq!(s.release_all(), vec![]);
}

#[test]
fn scroll_is_clamped_and_key_count_bounded() {
    let mut s = InputState::new(false, false);
    assert_eq!(s.apply(InputEvent::Scroll { delta: Some(-99) }).unwrap(), vec![Action::Scroll(-20)]);
    assert_eq!(s.apply(InputEvent::Scroll { delta: None }).unwrap(), vec![Action::Scroll(0)]);
    for c in 0..256u32 {
        let k = KeyCode::Unicode(char::from_u32(0x4e00 + c).unwrap());
        s.apply(InputEvent::Key { down: true, key: Some(k) }).unwrap();
    }
    assert_eq!(
        s.apply(InputEvent::Key { down: true, key: Some(KeyCode::Tab) }),
        Err(InputError::TooManyKeys)
    );
}

#[test]
fn clipboard_requires_opt_in_and_bounds() {
    let mut denied = InputState::new(false, false);
    assert_eq!(denied.apply(InputEvent::Clipboard { paste: true, text_bytes: 3 }).unwrap(), vec![]);
    assert_eq!(
        denied.apply(InputEvent::Clipboard { paste: false, text_bytes: 16385 }),
        Err(InputError::ClipboardTooLarge)
    );
    let mut s = InputState::new(true, true);
    s.apply(InputEvent::Key { down: true, key: Some(KeyCode::Shift) }).unwrap();
    assert_eq!(
        s.apply(InputEvent::Clipboard { paste: true, text_bytes: 3 }).unwrap(),
        vec![
            Action::SetClipboard,
            Action::Pause(30),
            Action::ReleaseKey(KeyCode::Shift),
            Action::PressKey(KeyCode::Meta),
            Action::Pause(20),
            Action::ClickKey(KeyCode::Unicode('v')),
            Action::ReleaseKey(KeyCode::Meta)
        ]
    );
    assert_eq!(clipboard_ack(true), "clipboardApplied");
    assert_eq!(clipboard_ack(false), "clipboardDenied");
    assert_eq!(clipboard_reply(false, Some("x".into())), ClipboardReply::Code("clipboardDenied"));
    assert_eq!(clipboard_reply(true, Some("x".into())), ClipboardReply::Text("x".into()));
    assert_eq!(
        clipboard_reply(true, Some("x".repeat(16385))),
        ClipboardReply::Code("clipboardUnavailable")
    );
    assert_eq!(clipboard_reply(true, None), ClipboardReply::Code("clipboardUnavailable"));
    assert_eq!(copy_letter(command("clipboard.cut")), Some('x'));
    assert_eq!(copy_letter(command("clipboard.copy")), Some('c'));
    assert_eq!(copy_letter(command("clipboard.read")), None);
    assert_eq!(command("keyDown"), Command::KeyDown);
    assert_eq!(command("RunShellCommand"), Command::Unknown);
}

#[test]
fn missing_display_is_not_replaced() {
    let displays = vec![
        DisplayInfo { id: Some(4), primary: false },
        DisplayInfo { id: Some(9), primary: true },
        DisplayInfo { id: None, primary: true },
    ];
    assert_eq!(select_display(&displays, None), Some(1));
    assert_eq!(select_display(&displays, Some(4)), Some(0));
    assert_eq!(select_display(&displays, Some(5)), None);
    assert_eq!(selected(u32::MAX), None);
    assert_eq!(selected(3), Some(3));
    assert_eq!(selection_value(None), u32::MAX);
    assert_eq!(selection_value(Some(33)), 33);
}

#[test]
fn input_messages_decode_to_requests() {
    assert_eq!(input_event("down", Some(1), None, 0, None), InputEvent::Button { down: true, button: Some(1) });
    assert_eq!(input_event("up", Some(0), None, 0, None), InputEvent::Button { down: false, button: Some(0) });
    assert_eq!(input_event("scroll", None, Some(-3), 0, None), InputEvent::Scroll { delta: Some(-3) });
    assert_eq!(input_event("releaseAll", None, None, 0, None), InputEvent::ReleaseAll);
    assert_eq!(
        input_event("clipboard.paste", None, None, 12, None),
        InputEvent::Clipboard { paste: true, text_bytes: 12 }
    );
    assert_eq!(
        input_event("keyDown", None, None, 0, Some("Escape")),
        InputEvent::Key { down: true, key: Some(KeyCode::Escape) }
    );
    assert_eq!(input_event("keyUp", None, None, 0, Some("q")), InputEvent::Key { down: false, key: Some(KeyCode::Unicode('q')) });
    assert_eq!(input_event("move", None, None, 0, None), InputEvent::Ignored);
    assert_eq!(input_event("clipboard.read", None, None, 0, None), InputEvent::Ignored);
}

#[test]
fn unknown_controls_and_key_names_do_nothing() {
    let mut s = InputState::new(true, false);
    let unknown = input_event("RunShellCommand", Some(0), Some(5), 4, Some("Enter"));
    assert_eq!(unknown, InputEvent::Ignored);
    assert_eq!(s.apply(unknown).unwrap(), vec![]);
    let unnamed = input_event("keyDown", None, None, 0, Some("RunShellCommand"));
    assert_eq!(unnamed, InputEvent::Key { down: true, key: None });
    assert_eq!(s.apply(unnamed).unwrap(), vec![]);
    assert_eq!(s.release_all(), vec![]);
}

#[test]
fn new_settings_and_stale_frames_force_a_keyframe() {
    let current = VideoSettings::default();
    let same = frame_plan(current, current, false, 1999);
    assert_eq!(same, FramePlan { reconfigure: false, keyframe: false });
    assert_eq!(frame_plan(current, current, false, 2000), FramePlan { reconfigure: false, keyframe: true });
    assert_eq!(frame_plan(current, current, true, 0), FramePlan { reconfigure: false, keyframe: true });
    let requested = VideoSettings::validated(30, 800_000, 1920).unwrap();
    assert_eq!(frame_plan(requested, current, false, 0), FramePlan { reconfigure: true, keyframe: true });
}

#[test]
fn clipboard_read_replies_stay_within_message_limit() {
    assert_eq!(
        clipboard_read_message(false, Some("x".into())),
        r#"{"code":"clipboardDenied","type":"clipboard.result"}"#
    );
    assert_eq!(clipboard_read_message(true, Some("x".into())), r#"{"text":"x","type":"clipboard.text"}"#);
    assert_eq!(
        clipboard_read_message(true, Some("say \"hi\"\n".into())),
        r#"{"text":"say \"hi\"\n","type":"clipboard.text"}"#
    );
    assert_eq!(
        clipboard_read_message(true, None),
        r#"{"code":"clipboardUnavailable","type":"clipboard.result"}"#
    );
    let long = "a".repeat(16384);
    assert_eq!(clipboard_read_message(true, Some(long.clone())), format!("{{\"text\":\"{long}\",\"type\":\"clipboard.text\"}}"));
    assert_eq!(
        clipboard_read_message(true, Some("a".repeat(16385))),
        r#"{"code":"clipboardUnavailable","type":"clipboard.result"}"#
    );
    // Each control character is escaped to six bytes, so this text fits 16 KiB but its
    // reply would exceed 20,000 bytes.
    assert_eq!(
        clipboard_read_message(true, Some("\u{1}".repeat(4000))),
        r#"{"code":"clipboardUnavailable","type":"clipboard.result"}"#
    );
}

#[test]
fn input_messages_are_small_text() {
    assert!(input_message_accepted(true, 20000));
    assert!(!input_message_accepted(true, 20001));
    assert!(!input_message_accepted(false, 10));
}
