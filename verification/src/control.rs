use vstd::prelude::*;

use crate::ime::ImeMode;

verus! {

/// The number that stands for `ImeMode::Alpha` in the shared mode cell and in messages.
pub const MODE_ALPHA: i32 = 0;

/// The number that stands for `ImeMode::Hiragana`.
pub const MODE_HIRAGANA: i32 = 1;

/// The number that stands for `ImeMode::Other`.
pub const MODE_OTHER: i32 = 2;

/// Timer that polls the IME status.
pub const TIMER_POLL: usize = 1;

/// Timer that drives the fades.
pub const TIMER_FADE: usize = 2;

/// Period of the IME status poll, in milliseconds.
pub const POLL_INTERVAL_MS: u32 = 100;

/// Period of the fade timer, in milliseconds.
pub const FADE_INTERVAL_MS: u32 = 16;

/// Win32 `WM_DESTROY`.
pub const WM_DESTROY: u32 = 0x0002;

/// Win32 `WM_KEYUP`.
pub const WM_KEYUP: u32 = 0x0101;

/// Win32 `WM_SYSKEYUP`.
pub const WM_SYSKEYUP: u32 = 0x0105;

/// Win32 `WM_TIMER`.
pub const WM_TIMER: u32 = 0x0113;

/// Win32 `WM_APP`, the first message number free for an application.
pub const WM_APP: u32 = 0x8000;

/// Win32 `HC_ACTION`, the hook code under which a low-level keyboard hook must act.
pub const HC_ACTION: i32 = 0;

/// The IME mode changed; the message parameter carries the mode's number.
pub const WM_APP_IME_CHANGED: u32 = WM_APP + 1;

/// An IME key was pressed that did not change the mode; the indicator is shown anyway.
pub const WM_APP_KEY_ACTIVITY: u32 = WM_APP + 2;

/// The number of a mode.
pub open spec fn spec_mode_to_int(mode: ImeMode) -> i32 {
    match mode {
        ImeMode::Alpha => MODE_ALPHA,
        ImeMode::Hiragana => MODE_HIRAGANA,
        ImeMode::Other => MODE_OTHER,
    }
}

/// The mode of a number; numbers that stand for no mode read as `Alpha`.
pub open spec fn spec_int_to_mode(code: i32) -> ImeMode {
    if code == MODE_HIRAGANA {
        ImeMode::Hiragana
    } else if code == MODE_OTHER {
        ImeMode::Other
    } else {
        ImeMode::Alpha
    }
}

/// Whether a number stands for a mode.
pub open spec fn is_mode_code(code: i32) -> bool {
    code == MODE_ALPHA || code == MODE_HIRAGANA || code == MODE_OTHER
}

/// The number that stands for a mode.
pub fn mode_to_int(mode: ImeMode) -> (code: i32)
    ensures
        code == spec_mode_to_int(mode),
        is_mode_code(code),
{
    match mode {
        ImeMode::Alpha => MODE_ALPHA,
        ImeMode::Hiragana => MODE_HIRAGANA,
        ImeMode::Other => MODE_OTHER,
    }
}

/// The mode that a number stands for; any number but 1 and 2 reads as `Alpha`.
pub fn int_to_mode(code: i32) -> (mode: ImeMode)
    ensures
        mode == spec_int_to_mode(code),
{
    if code == MODE_HIRAGANA {
        ImeMode::Hiragana
    } else if code == MODE_OTHER {
        ImeMode::Other
    } else {
        ImeMode::Alpha
    }
}

/// Numbering a mode and reading the number back gives the mode; reading a number
/// and numbering the mode gives the number when it stands for a mode and 0 otherwise.
pub proof fn lemma_mode_codes_round_trip(mode: ImeMode, code: i32)
    ensures
        spec_int_to_mode(spec_mode_to_int(mode)) == mode,
        spec_mode_to_int(spec_int_to_mode(code)) == (if is_mode_code(code) {
            code
        } else {
            MODE_ALPHA
        }),
{
}

/// What an IME key asks for.
#[derive(Debug, Clone, Copy, PartialEq, Eq, Structural)]
pub enum KeyAction {
    SetAlpha,
    SetHiragana,
    SetKatakana,
    Toggle,
}

/// The action of a virtual-key code; keys that are not IME keys have none.
pub open spec fn spec_vk_to_action(vk: u32) -> Option<KeyAction> {
    if vk == 0x19 || vk == 0x15 || vk == 0xF3 || vk == 0xF4 {
        Some(KeyAction::Toggle)
    } else if vk == 0x16 || vk == 0xF2 {
        Some(KeyAction::SetHiragana)
    } else if vk == 0x1A || vk == 0xF0 {
        Some(KeyAction::SetAlpha)
    } else if vk == 0xF1 {
        Some(KeyAction::SetKatakana)
    } else {
        None
    }
}

/// The action of an IME key:
/// `VK_KANJI` (0x19, half/full width), `VK_KANA` (0x15), `VK_DBE_SBCSCHAR` (0xF3) and
/// `VK_DBE_DBCSCHAR` (0xF4) toggle; `VK_IME_ON` (0x16) and `VK_DBE_HIRAGANA` (0xF2, kana / lang1)
/// select hiragana; `VK_IME_OFF` (0x1A) and `VK_DBE_ALPHANUMERIC` (0xF0, eisu / lang0) select
/// direct input; `VK_DBE_KATAKANA` (0xF1) selects katakana. Other keys have none.
pub fn vk_to_action(vk: u32) -> (action: Option<KeyAction>)
    ensures
        action == spec_vk_to_action(vk),
{
    match vk {
        0x19 => Some(KeyAction::Toggle),
        0x15 => Some(KeyAction::Toggle),
        0x16 => Some(KeyAction::SetHiragana),
        0x1A => Some(KeyAction::SetAlpha),
        0xF0 => Some(KeyAction::SetAlpha),
        0xF1 => Some(KeyAction::SetKatakana),
        0xF2 => Some(KeyAction::SetHiragana),
        0xF3 | 0xF4 => Some(KeyAction::Toggle),
        _ => None,
    }
}

/// The mode number that an action leads to from the mode number `current`.
pub open spec fn spec_action_target(action: KeyAction, current: i32) -> i32 {
    match action {
        KeyAction::SetAlpha => MODE_ALPHA,
        KeyAction::SetHiragana => MODE_HIRAGANA,
        KeyAction::SetKatakana => MODE_OTHER,
        KeyAction::Toggle => if current == MODE_ALPHA {
            MODE_HIRAGANA
        } else {
            MODE_ALPHA
        },
    }
}

/// The mode number that an action leads to: a toggle turns direct input into
/// hiragana and any other mode into direct input.
pub fn action_target(action: KeyAction, current: i32) -> (target: i32)
    ensures
        target == spec_action_target(action, current),
        is_mode_code(target),
        action == KeyAction::SetAlpha ==> target == 0,
        action == KeyAction::SetHiragana ==> target == 1,
        action == KeyAction::SetKatakana ==> target == 2,
        action == KeyAction::Toggle ==> target == (if current == 0 {
            1i32
        } else {
            0i32
        }),
{
    match action {
        KeyAction::SetAlpha => MODE_ALPHA,
        KeyAction::SetHiragana => MODE_HIRAGANA,
        KeyAction::SetKatakana => MODE_OTHER,
        KeyAction::Toggle => {
            if current == MODE_ALPHA {
                MODE_HIRAGANA
            } else {
                MODE_ALPHA
            }
        },
    }
}

/// A message that the keyboard hook posts to the indicator window.
#[derive(Debug, Clone, Copy, PartialEq, Eq, Structural)]
pub enum HookPost {
    /// `WM_APP_IME_CHANGED` with this mode number.
    ModeChanged(i32),
    /// `WM_APP_KEY_ACTIVITY`.
    KeyActivity,
}

/// Whether a low-level keyboard hook call reports a key being released.
pub open spec fn is_key_release(code: i32, message: u32) -> bool {
    code == HC_ACTION && (message == WM_KEYUP || message == WM_SYSKEYUP)
}

/// The mode number held after a hook call and the message it posts.
pub open spec fn spec_keyboard_event(
    code: i32,
    message: u32,
    vk: u32,
    overlay_ready: bool,
    current: i32,
) -> (i32, Option<HookPost>) {
    if is_key_release(code, message) && overlay_ready {
        match spec_vk_to_action(vk) {
            Some(action) => {
                let target = spec_action_target(action, current);
                if target != current {
                    (target, Some(HookPost::ModeChanged(target)))
                } else {
                    (current, Some(HookPost::KeyActivity))
                }
            },
            None => (current, None),
        }
    } else {
        (current, None)
    }
}

/// Decides what the low-level keyboard hook does with one call, given the hook code,
/// the message kind, the virtual-key code, whether the indicator window exists, and
/// the mode number held so far. Only key releases count, and only IME keys: one that
/// changes the mode posts the new mode, one that leaves it as it is still shows the
/// indicator; every other key leaves everything as it is.
pub fn keyboard_event(code: i32, message: u32, vk: u32, overlay_ready: bool, current: i32) -> (outcome: (
    i32,
    Option<HookPost>,
))
    ensures
        outcome == spec_keyboard_event(code, message, vk, overlay_ready, current),
{
    if code == HC_ACTION && (message == WM_KEYUP || message == WM_SYSKEYUP) && overlay_ready {
        match vk_to_action(vk) {
            Some(action) => {
                let target = action_target(action, current);
                if target != current {
                    (target, Some(HookPost::ModeChanged(target)))
                } else {
                    (current, Some(HookPost::KeyActivity))
                }
            },
            None => (current, None),
        }
    } else {
        (current, None)
    }
}

/// Every released IME key shows the indicator, whether or not the mode changes;
/// other keys post nothing; the mode number held changes only with a posted change,
/// and then to the number posted, which stands for a mode.
pub proof fn lemma_ime_keys_always_show(code: i32, message: u32, vk: u32, current: i32)
    requires
        is_key_release(code, message),
    ensures
        spec_keyboard_event(code, message, vk, true, current).1 is Some <==> spec_vk_to_action(
            vk,
        ) is Some,
        spec_keyboard_event(code, message, vk, true, current).1 matches Some(HookPost::ModeChanged(m))
            ==> m == spec_keyboard_event(code, message, vk, true, current).0 && m != current
            && is_mode_code(m),
        !(spec_keyboard_event(code, message, vk, true, current).1 matches Some(
            HookPost::ModeChanged(_),
        )) ==> spec_keyboard_event(code, message, vk, true, current).0 == current,
{
}

/// A toggle key switches direct input to hiragana, and hiragana or any other mode to
/// direct input; pressing it twice from direct input comes back to direct input.
pub proof fn lemma_toggle(current: i32)
    ensures
        spec_action_target(KeyAction::Toggle, MODE_ALPHA) == MODE_HIRAGANA,
        current != MODE_ALPHA ==> spec_action_target(KeyAction::Toggle, current) == MODE_ALPHA,
        spec_action_target(
            KeyAction::Toggle,
            spec_action_target(KeyAction::Toggle, MODE_ALPHA),
        ) == MODE_ALPHA,
{
}

/// Which mode each IME key leads to when released, with the indicator window there:
/// eisu / lang0 and IME-off always to direct input (0), kana / lang1 and IME-on always
/// to hiragana (1), katakana always to the other mode (2), and the toggles
/// (half/full width, kana, SBCS/DBCS) to hiragana from direct input and to direct
/// input from any other mode. A key that changes the held number posts the new
/// number; one that leaves it posts key activity.
pub proof fn lemma_ime_key_targets(code: i32, message: u32, vk: u32, current: i32)
    requires
        is_key_release(code, message),
    ensures
        (vk == 0x1A || vk == 0xF0) ==> spec_keyboard_event(code, message, vk, true, current).0 == 0,
        (vk == 0x16 || vk == 0xF2) ==> spec_keyboard_event(code, message, vk, true, current).0 == 1,
        vk == 0xF1 ==> spec_keyboard_event(code, message, vk, true, current).0 == 2,
        (vk == 0x19 || vk == 0x15 || vk == 0xF3 || vk == 0xF4) ==> spec_keyboard_event(
            code,
            message,
            vk,
            true,
            current,
        ).0 == (if current == 0 {
            1i32
        } else {
            0i32
        }),
        spec_vk_to_action(vk) is Some ==> spec_keyboard_event(code, message, vk, true, current).1
            == (if spec_keyboard_event(code, message, vk, true, current).0 != current {
            Some(HookPost::ModeChanged(spec_keyboard_event(code, message, vk, true, current).0))
        } else {
            Some(HookPost::KeyActivity)
        }),
{
}

/// The mode number held after a poll and the change it posts, if any.
pub open spec fn spec_poll_event(read: Option<ImeMode>, overlay_ready: bool, stored: i32) -> (
    i32,
    Option<i32>,
) {
    match read {
        Some(mode) => {
            let code = spec_mode_to_int(mode);
            if code != stored && overlay_ready {
                (code, Some(code))
            } else {
                (code, None)
            }
        },
        None => (stored, None),
    }
}

/// Decides what a poll of the IME status does: when the status could be read, its
/// mode number is held from now on and, if it differs from the one held before and
/// the indicator window exists, it is posted as a change.
pub fn poll_event(read: Option<ImeMode>, overlay_ready: bool, stored: i32) -> (outcome: (
    i32,
    Option<i32>,
))
    ensures
        outcome == spec_poll_event(read, overlay_ready, stored),
{
    match read {
        Some(mode) => {
            let code = mode_to_int(mode);
            if code != stored && overlay_ready {
                (code, Some(code))
            } else {
                (code, None)
            }
        },
        None => (stored, None),
    }
}

/// A poll posts a change exactly when the status could be read, the indicator window
/// exists and the mode read differs from the one held; what it posts is what it holds.
pub proof fn lemma_poll_posts_only_changes(read: Option<ImeMode>, overlay_ready: bool, stored: i32)
    ensures
        spec_poll_event(read, overlay_ready, stored).1 is Some <==> (read is Some && overlay_ready
            && spec_mode_to_int(read->0) != stored),
        spec_poll_event(read, overlay_ready, stored).1 matches Some(code) ==> code == spec_poll_event(
            read,
            overlay_ready,
            stored,
        ).0,
        read is None ==> spec_poll_event(read, overlay_ready, stored).0 == stored,
{
}

/// The mode number shared by the hook and the poll always stands for a mode, since
/// both only ever hold what they held before or the number of a mode.
pub proof fn lemma_held_number_stays_a_mode(
    code: i32,
    message: u32,
    vk: u32,
    overlay_ready: bool,
    read: Option<ImeMode>,
    current: i32,
)
    requires
        is_mode_code(current),
    ensures
        is_mode_code(spec_keyboard_event(code, message, vk, overlay_ready, current).0),
        is_mode_code(spec_poll_event(read, overlay_ready, current).0),
{
}

/// What the indicator window does with a message.
#[derive(Debug, Clone, Copy, PartialEq, Eq, Structural)]
pub enum WindowEvent {
    /// The poll timer fired.
    PollTick,
    /// The fade timer fired.
    FadeTick,
    /// Some other timer fired; nothing to do.
    OtherTimer,
    /// The IME mode changed to this mode.
    ModeChanged(ImeMode),
    /// An IME key was pressed without changing the mode.
    KeyActivity,
    /// The window is being destroyed.
    Destroy,
    /// Any other message, left to the default window procedure.
    Unhandled,
}

/// The event that a message stands for.
pub open spec fn spec_classify_message(message: u32, wparam: usize) -> WindowEvent {
    if message == WM_TIMER {
        if wparam == TIMER_POLL {
            WindowEvent::PollTick
        } else if wparam == TIMER_FADE {
            WindowEvent::FadeTick
        } else {
            WindowEvent::OtherTimer
        }
    } else if message == WM_APP_IME_CHANGED {
        WindowEvent::ModeChanged(spec_int_to_mode(wparam as i32))
    } else if message == WM_APP_KEY_ACTIVITY {
        WindowEvent::KeyActivity
    } else if message == WM_DESTROY {
        WindowEvent::Destroy
    } else {
        WindowEvent::Unhandled
    }
}

/// Sorts a message sent to the indicator window into what the window does with it;
/// a mode change carries the mode number in its first parameter.
pub fn classify_message(message: u32, wparam: usize) -> (event: WindowEvent)
    ensures
        event == spec_classify_message(message, wparam),
{
    if message == WM_TIMER {
        if wparam == TIMER_POLL {
            WindowEvent::PollTick
        } else if wparam == TIMER_FADE {
            WindowEvent::FadeTick
        } else {
            WindowEvent::OtherTimer
        }
    } else if message == WM_APP_IME_CHANGED {
        WindowEvent::ModeChanged(int_to_mode(wparam as i32))
    } else if message == WM_APP_KEY_ACTIVITY {
        WindowEvent::KeyActivity
    } else if message == WM_DESTROY {
        WindowEvent::Destroy
    } else {
        WindowEvent::Unhandled
    }
}

/// A mode change that the hook or the poll posts reaches the window as the very mode
/// it was posted for.
pub proof fn lemma_posted_mode_arrives(mode: ImeMode)
    ensures
        spec_classify_message(WM_APP_IME_CHANGED, spec_mode_to_int(mode) as usize)
            == WindowEvent::ModeChanged(mode),
{
}

/// Half of `width`, rounded toward zero as integer division rounds.
pub open spec fn half_width(width: i32) -> int {
    if width >= 0 {
        width / 2
    } else {
        -((-width) / 2)
    }
}

/// The upper left corner of an indicator `width` pixels wide that is centred
/// horizontally on `anchor`.
pub open spec fn spec_centered_anchor(anchor: (i32, i32), width: i32) -> (i32, i32) {
    ((anchor.0 - half_width(width)) as i32, anchor.1)
}

/// Centres an indicator `width` pixels wide horizontally on `anchor`.
pub fn centered_anchor(anchor: (i32, i32), width: i32) -> (corner: (i32, i32))
    requires
        i32::MIN <= anchor.0 - half_width(width) <= i32::MAX,
    ensures
        corner == spec_centered_anchor(anchor, width),
{
    (anchor.0 - width / 2, anchor.1)
}

} // verus!
