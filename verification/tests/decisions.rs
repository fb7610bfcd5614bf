use ime_indicator::caret::{
    anchor_inputs_in_range, bounding_rects_hold_caret, caret_client_point, cursor_anchor,
    indicator_anchor, resolve_anchor, window_anchor, AnchorSource, Rect,
};
use ime_indicator::control::{
    action_target, centered_anchor, classify_message, int_to_mode, keyboard_event, mode_to_int,
    poll_event, vk_to_action, HookPost, KeyAction, WindowEvent, FADE_INTERVAL_MS, MODE_ALPHA,
    MODE_HIRAGANA, MODE_OTHER, POLL_INTERVAL_MS, TIMER_FADE, TIMER_POLL, WM_APP_IME_CHANGED,
    WM_APP_KEY_ACTIVITY, WM_DESTROY, WM_KEYUP, WM_SYSKEYUP, WM_TIMER,
};
use ime_indicator::ime::{glyph, mode_from_status, ImeMode, IME_CMODE_NATIVE};
use ime_indicator::startup::{
    deletion_result, quoted_command, registry_string_bytes, run_entry_present,
    ERROR_FILE_NOT_FOUND,
};

#[test]
fn status_classification() {
    assert_eq!(mode_from_status(false, 0), ImeMode::Alpha);
    assert_eq!(mode_from_status(false, IME_CMODE_NATIVE), ImeMode::Alpha);
    assert_eq!(mode_from_status(true, IME_CMODE_NATIVE), ImeMode::Hiragana);
    // Native plus katakana and full-shape bits: still native.
    assert_eq!(mode_from_status(true, 0x0001 | 0x0002 | 0x0008), ImeMode::Hiragana);
    assert_eq!(mode_from_status(true, 0), ImeMode::Other);
    assert_eq!(mode_from_status(true, 0x0008), ImeMode::Other);
}

#[test]
fn glyphs_per_mode() {
    assert_eq!(glyph(ImeMode::Alpha), 'A' as u16);
    assert_eq!(glyph(ImeMode::Hiragana), 'あ' as u16);
    assert_eq!(glyph(ImeMode::Other), 'カ' as u16);
}

#[test]
fn mode_numbers_round_trip() {
    for mode in [ImeMode::Alpha, ImeMode::Hiragana, ImeMode::Other] {
        assert_eq!(int_to_mode(mode_to_int(mode)), mode);
    }
    assert_eq!(mode_to_int(ImeMode::Alpha), 0);
    assert_eq!(mode_to_int(ImeMode::Hiragana), 1);
    assert_eq!(mode_to_int(ImeMode::Other), 2);
    assert_eq!(int_to_mode(3), ImeMode::Alpha);
    assert_eq!(int_to_mode(-1), ImeMode::Alpha);
}

#[test]
fn ime_keys_map_to_actions() {
    assert_eq!(vk_to_action(0x19), Some(KeyAction::Toggle));
    assert_eq!(vk_to_action(0x15), Some(KeyAction::Toggle));
    assert_eq!(vk_to_action(0x16), Some(KeyAction::SetHiragana));
    assert_eq!(vk_to_action(0x1A), Some(KeyAction::SetAlpha));
    assert_eq!(vk_to_action(0xF0), Some(KeyAction::SetAlpha));
    assert_eq!(vk_to_action(0xF1), Some(KeyAction::SetKatakana));
    assert_eq!(vk_to_action(0xF2), Some(KeyAction::SetHiragana));
    assert_eq!(vk_to_action(0xF3), Some(KeyAction::Toggle));
    assert_eq!(vk_to_action(0xF4), Some(KeyAction::Toggle));
    assert_eq!(vk_to_action(0x41), None); // 'A'
    assert_eq!(vk_to_action(0x25), None); // left arrow
    assert_eq!(vk_to_action(0x0D), None); // enter
}

#[test]
fn toggle_alternates() {
    assert_eq!(action_target(KeyAction::Toggle, MODE_ALPHA), MODE_HIRAGANA);
    assert_eq!(action_target(KeyAction::Toggle, MODE_HIRAGANA), MODE_ALPHA);
    assert_eq!(action_target(KeyAction::Toggle, MODE_OTHER), MODE_ALPHA);
    assert_eq!(action_target(KeyAction::SetKatakana, MODE_ALPHA), MODE_OTHER);
    assert_eq!(action_target(KeyAction::SetHiragana, MODE_OTHER), MODE_HIRAGANA);
    assert_eq!(action_target(KeyAction::SetAlpha, MODE_HIRAGANA), MODE_ALPHA);
}

#[test]
fn hook_posts_mode_changes() {
    // Kana (lang1) in direct input: hiragana.
    assert_eq!(
        keyboard_event(0, WM_KEYUP, 0xF2, true, MODE_ALPHA),
        (MODE_HIRAGANA, Some(HookPost::ModeChanged(MODE_HIRAGANA)))
    );
    // Half/full width via a system key release.
    assert_eq!(
        keyboard_event(0, WM_SYSKEYUP, 0x19, true, MODE_HIRAGANA),
        (MODE_ALPHA, Some(HookPost::ModeChanged(MODE_ALPHA)))
    );
}

#[test]
fn hook_shows_unchanged_mode_too() {
    // Already hiragana, lang1 again: shown anyway.
    assert_eq!(
        keyboard_event(0, WM_KEYUP, 0xF2, true, MODE_HIRAGANA),
        (MODE_HIRAGANA, Some(HookPost::KeyActivity))
    );
}

#[test]
fn hook_ignores_other_keys_and_events() {
    assert_eq!(keyboard_event(0, WM_KEYUP, 0x41, true, MODE_ALPHA), (MODE_ALPHA, None));
    assert_eq!(keyboard_event(0, WM_KEYUP, 0x25, true, MODE_OTHER), (MODE_OTHER, None));
    // Key press, not release.
    assert_eq!(keyboard_event(0, 0x0100, 0xF2, true, MODE_ALPHA), (MODE_ALPHA, None));
    // Hook code other than HC_ACTION.
    assert_eq!(keyboard_event(3, WM_KEYUP, 0xF2, true, MODE_ALPHA), (MODE_ALPHA, None));
    // No indicator window yet.
    assert_eq!(keyboard_event(0, WM_KEYUP, 0xF2, false, MODE_ALPHA), (MODE_ALPHA, None));
}

#[test]
fn poll_posts_only_changes() {
    assert_eq!(poll_event(Some(ImeMode::Hiragana), true, MODE_ALPHA), (MODE_HIRAGANA, Some(MODE_HIRAGANA)));
    assert_eq!(poll_event(Some(ImeMode::Hiragana), true, MODE_HIRAGANA), (MODE_HIRAGANA, None));
    assert_eq!(poll_event(Some(ImeMode::Other), false, MODE_ALPHA), (MODE_OTHER, None));
    assert_eq!(poll_event(None, true, MODE_OTHER), (MODE_OTHER, None));
}

#[test]
fn messages_are_classified() {
    assert_eq!(TIMER_POLL, 1);
    assert_eq!(TIMER_FADE, 2);
    assert_eq!(POLL_INTERVAL_MS, 100);
    assert_eq!(FADE_INTERVAL_MS, 16);
    assert_eq!(WM_APP_IME_CHANGED, 0x8001);
    assert_eq!(WM_APP_KEY_ACTIVITY, 0x8002);
    assert_eq!(classify_message(WM_TIMER, TIMER_POLL), WindowEvent::PollTick);
    assert_eq!(classify_message(WM_TIMER, TIMER_FADE), WindowEvent::FadeTick);
    assert_eq!(classify_message(WM_TIMER, 7), WindowEvent::OtherTimer);
    assert_eq!(classify_message(WM_APP_IME_CHANGED, 2), WindowEvent::ModeChanged(ImeMode::Other));
    assert_eq!(classify_message(WM_APP_IME_CHANGED, 1), WindowEvent::ModeChanged(ImeMode::Hiragana));
    assert_eq!(classify_message(WM_APP_IME_CHANGED, 9), WindowEvent::ModeChanged(ImeMode::Alpha));
    assert_eq!(classify_message(WM_APP_KEY_ACTIVITY, 0), WindowEvent::KeyActivity);
    assert_eq!(classify_message(WM_DESTROY, 0), WindowEvent::Destroy);
    assert_eq!(classify_message(0x000F, 0), WindowEvent::Unhandled);
}

#[test]
fn posted_change_reaches_window() {
    let (stored, post) = keyboard_event(0, WM_KEYUP, 0xF1, true, MODE_ALPHA);
    assert_eq!(stored, MODE_OTHER);
    match post {
        Some(HookPost::ModeChanged(code)) => {
            assert_eq!(
                classify_message(WM_APP_IME_CHANGED, code as usize),
                WindowEvent::ModeChanged(ImeMode::Other)
            );
        }
        other => panic!("unexpected {:?}", other),
    }
}

#[test]
fn centering() {
    assert_eq!(centered_anchor((100, 50), 56), (72, 50));
    assert_eq!(centered_anchor((100, 50), 57), (72, 50));
    assert_eq!(centered_anchor((0, -3), 84), (-42, -3));
    assert_eq!(centered_anchor((0, 0), -5), (2, 0));
}

#[test]
fn caret_rect_handling() {
    let zero = Rect { left: 0, top: 0, right: 0, bottom: 0 };
    assert_eq!(caret_client_point(zero, true), None);
    let caret = Rect { left: 10, top: 20, right: 11, bottom: 38 };
    assert_eq!(caret_client_point(caret, true), Some((10, 38)));
    assert_eq!(caret_client_point(caret, false), None);
    assert!(bounding_rects_hold_caret(0, 3));
    assert!(!bounding_rects_hold_caret(0, 2));
    assert!(!bounding_rects_hold_caret(0, -1));
    assert!(bounding_rects_hold_caret(i32::MIN, i32::MAX));
}

#[test]
fn fallback_anchors() {
    let window = Rect { left: 100, top: 100, right: 900, bottom: 700 };
    assert_eq!(window_anchor(window), (132, 636));
    assert_eq!(cursor_anchor(Some((5, 6))), (21, 22));
    assert_eq!(cursor_anchor(None), (100, 100));
}

#[test]
fn anchor_preference_order() {
    let window = Some(Rect { left: 0, top: 0, right: 500, bottom: 400 });
    assert_eq!(
        resolve_anchor(Some((10, 10)), Some((50, 50)), window, Some((7, 7))),
        (AnchorSource::UiAutomation, (14, 14))
    );
    assert_eq!(
        resolve_anchor(None, Some((50, 50)), window, Some((7, 7))),
        (AnchorSource::GuiThreadInfo, (54, 54))
    );
    assert_eq!(
        resolve_anchor(None, None, window, Some((7, 7))),
        (AnchorSource::ForegroundWindow, (32, 336))
    );
    assert_eq!(resolve_anchor(None, None, None, Some((7, 7))), (AnchorSource::Cursor, (23, 23)));
    assert_eq!(resolve_anchor(None, None, None, None), (AnchorSource::Cursor, (100, 100)));
    assert_eq!(indicator_anchor(None, Some((1, 2)), None, None), (5, 6));
}

#[test]
fn anchor_range_check() {
    assert!(anchor_inputs_in_range(Some((i32::MAX - 4, 0)), None, None, None));
    assert!(!anchor_inputs_in_range(Some((i32::MAX - 3, 0)), None, None, None));
    // Only the reading that is chosen matters.
    assert!(anchor_inputs_in_range(Some((0, 0)), Some((i32::MAX, i32::MAX)), None, None));
    let low = Rect { left: 0, top: 0, right: 0, bottom: i32::MIN + 63 };
    assert!(!anchor_inputs_in_range(None, None, Some(low), None));
    assert!(!anchor_inputs_in_range(None, None, None, Some((i32::MAX - 15, 0))));
    assert!(anchor_inputs_in_range(None, None, None, None));
}

#[test]
fn run_entry_detection() {
    assert!(run_entry_present(true, 10));
    assert!(!run_entry_present(true, 0));
    assert!(!run_entry_present(false, 10));
}

#[test]
fn deletion_outcomes() {
    assert_eq!(deletion_result(0), Ok(()));
    assert_eq!(deletion_result(ERROR_FILE_NOT_FOUND), Ok(()));
    assert_eq!(deletion_result(5), Err(5));
}

#[test]
fn command_is_quoted() {
    assert_eq!(
        quoted_command(r"C:\Program Files\IMEIndicator\ime-indicator.exe"),
        "\"C:\\Program Files\\IMEIndicator\\ime-indicator.exe\""
    );
    assert_eq!(quoted_command(""), "\"\"");
}

#[test]
fn registry_string_encoding() {
    assert_eq!(registry_string_bytes(""), vec![0, 0]);
    assert_eq!(registry_string_bytes("\"A\""), vec![0x22, 0, 0x41, 0, 0x22, 0, 0, 0]);
    // あ = U+3042.
    assert_eq!(registry_string_bytes("あ"), vec![0x42, 0x30, 0, 0]);
    // U+1F600 is the surrogate pair D83D DE00.
    assert_eq!(registry_string_bytes("😀"), vec![0x3D, 0xD8, 0x00, 0xDE, 0, 0]);
}

#[test]
fn held_number_stays_a_mode() {
    let mut held = MODE_ALPHA;
    for vk in [0x19u32, 0xF1, 0x41, 0xF2, 0x15, 0x16, 0xF0, 0x1A, 0xF3, 0xF4] {
        let (next, _) = keyboard_event(0, WM_KEYUP, vk, true, held);
        assert!(next == MODE_ALPHA || next == MODE_HIRAGANA || next == MODE_OTHER);
        held = next;
        let (next, _) = poll_event(Some(ImeMode::Other), true, held);
        assert_eq!(next, MODE_OTHER);
        held = next;
    }
}
