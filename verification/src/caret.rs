use vstd::prelude::*;

verus! {

/// A rectangle in pixels, as Win32 `RECT` lays it out.
#[derive(Debug, Clone, Copy, PartialEq, Eq, Structural)]
pub struct Rect {
    pub left: i32,
    pub top: i32,
    pub right: i32,
    pub bottom: i32,
}

/// Where an indicator position came from, in order of preference.
#[derive(Debug, Clone, Copy, PartialEq, Eq, Structural)]
pub enum AnchorSource {
    /// The text selection that UI Automation reports for the focused element.
    UiAutomation,
    /// The caret rectangle of the foreground thread (`GUITHREADINFO.rcCaret`).
    GuiThreadInfo,
    /// Near the lower left corner of the foreground window.
    ForegroundWindow,
    /// Next to the mouse cursor.
    Cursor,
}

/// How far right of and below a caret the indicator goes.
pub const CARET_OFFSET: i32 = 4;

/// How far right of a foreground window's left edge the indicator goes.
pub const WINDOW_LEFT_INSET: i32 = 32;

/// How far above a foreground window's bottom edge the indicator goes.
pub const WINDOW_BOTTOM_INSET: i32 = 64;

/// How far right of and below the mouse cursor the indicator goes.
pub const CURSOR_OFFSET: i32 = 16;

/// Where the indicator goes when even the mouse cursor cannot be read.
pub const CURSOR_FALLBACK: (i32, i32) = (100, 100);

/// The number of coordinates that a bounding rectangle takes in a UI Automation
/// rectangle array (x, y, width, height).
pub const RECT_COORDINATES: i32 = 4;

/// Whether both coordinates of `point` can be moved by `offset` in `i32`.
pub open spec fn offset_fits(point: (i32, i32), offset: int) -> bool {
    point.0 + offset <= i32::MAX && point.1 + offset <= i32::MAX
}

/// `point` moved right and down by `offset`.
pub open spec fn offset_point(point: (i32, i32), offset: int) -> (i32, i32) {
    ((point.0 + offset) as i32, (point.1 + offset) as i32)
}

/// Whether the insets of a foreground-window anchor fit in `i32`.
pub open spec fn window_fits(window: Rect) -> bool {
    window.left + WINDOW_LEFT_INSET <= i32::MAX && window.bottom - WINDOW_BOTTOM_INSET >= i32::MIN
}

/// The anchor near the lower left corner of a foreground window.
pub open spec fn spec_window_anchor(window: Rect) -> (i32, i32) {
    ((window.left + WINDOW_LEFT_INSET) as i32, (window.bottom - WINDOW_BOTTOM_INSET) as i32)
}

/// The anchor next to the mouse cursor, or the fixed fallback when the cursor is unknown.
pub open spec fn spec_cursor_anchor(cursor: Option<(i32, i32)>) -> (i32, i32) {
    match cursor {
        Some(point) => offset_point(point, CURSOR_OFFSET as int),
        None => CURSOR_FALLBACK,
    }
}

/// Whether the readings that `resolve_anchor` uses can be offset without leaving `i32`.
/// Only the reading that is chosen is offset.
pub open spec fn anchor_inputs_fit(
    ui_caret: Option<(i32, i32)>,
    thread_caret: Option<(i32, i32)>,
    window: Option<Rect>,
    cursor: Option<(i32, i32)>,
) -> bool {
    match ui_caret {
        Some(point) => offset_fits(point, CARET_OFFSET as int),
        None => match thread_caret {
            Some(point) => offset_fits(point, CARET_OFFSET as int),
            None => match window {
                Some(rect) => window_fits(rect),
                None => match cursor {
                    Some(point) => offset_fits(point, CURSOR_OFFSET as int),
                    None => true,
                },
            },
        },
    }
}

/// The first reading that is there, in order of preference, and the indicator
/// position that it gives.
pub open spec fn spec_resolve_anchor(
    ui_caret: Option<(i32, i32)>,
    thread_caret: Option<(i32, i32)>,
    window: Option<Rect>,
    cursor: Option<(i32, i32)>,
) -> (AnchorSource, (i32, i32)) {
    match ui_caret {
        Some(point) => (AnchorSource::UiAutomation, offset_point(point, CARET_OFFSET as int)),
        None => match thread_caret {
            Some(point) => (AnchorSource::GuiThreadInfo, offset_point(point, CARET_OFFSET as int)),
            None => match window {
                Some(rect) => (AnchorSource::ForegroundWindow, spec_window_anchor(rect)),
                None => (AnchorSource::Cursor, spec_cursor_anchor(cursor)),
            },
        },
    }
}

/// The caret point, in the client coordinates of its window, that
/// `GUITHREADINFO` gives: the lower left corner of `rcCaret`. There is none when the
/// caret rectangle is all zero or when no window owns the caret, since then it cannot
/// be taken to screen coordinates.
pub fn caret_client_point(caret: Rect, has_owner: bool) -> (point: Option<(i32, i32)>)
    ensures
        point == (if (caret.left == 0 && caret.right == 0 && caret.top == 0 && caret.bottom == 0)
            || !has_owner {
            None
        } else {
            Some((caret.left, caret.bottom))
        }),
{
    if caret.left == 0 && caret.right == 0 && caret.top == 0 && caret.bottom == 0 {
        return None;
    }
    if !has_owner {
        return None;
    }
    Some((caret.left, caret.bottom))
}

/// Whether a UI Automation rectangle array with these bounds holds a whole rectangle.
pub fn bounding_rects_hold_caret(lower: i32, upper: i32) -> (whole: bool)
    ensures
        whole == (upper - lower + 1 >= RECT_COORDINATES),
{
    let count: i64 = upper as i64 - lower as i64 + 1;
    count >= RECT_COORDINATES as i64
}

/// The indicator position near the lower left corner of the foreground window.
pub fn window_anchor(window: Rect) -> (anchor: (i32, i32))
    requires
        window_fits(window),
    ensures
        anchor == spec_window_anchor(window),
{
    (window.left + WINDOW_LEFT_INSET, window.bottom - WINDOW_BOTTOM_INSET)
}

/// The indicator position next to the mouse cursor, or (100, 100) when the cursor
/// position could not be read.
pub fn cursor_anchor(cursor: Option<(i32, i32)>) -> (anchor: (i32, i32))
    requires
        cursor matches Some(point) ==> offset_fits(point, CURSOR_OFFSET as int),
    ensures
        anchor == spec_cursor_anchor(cursor),
{
    match cursor {
        Some(point) => (point.0 + CURSOR_OFFSET, point.1 + CURSOR_OFFSET),
        None => CURSOR_FALLBACK,
    }
}

/// Whether `resolve_anchor` can take these readings.
pub fn anchor_inputs_in_range(
    ui_caret: Option<(i32, i32)>,
    thread_caret: Option<(i32, i32)>,
    window: Option<Rect>,
    cursor: Option<(i32, i32)>,
) -> (fits: bool)
    ensures
        fits == anchor_inputs_fit(ui_caret, thread_caret, window, cursor),
{
    match ui_caret {
        Some(point) => point.0 <= i32::MAX - CARET_OFFSET && point.1 <= i32::MAX - CARET_OFFSET,
        None => match thread_caret {
            Some(point) => point.0 <= i32::MAX - CARET_OFFSET && point.1 <= i32::MAX - CARET_OFFSET,
            None => match window {
                Some(rect) => rect.left <= i32::MAX - WINDOW_LEFT_INSET && rect.bottom >= i32::MIN
                    + WINDOW_BOTTOM_INSET,
                None => match cursor {
                    Some(point) => point.0 <= i32::MAX - CURSOR_OFFSET && point.1 <= i32::MAX
                        - CURSOR_OFFSET,
                    None => true,
                },
            },
        },
    }
}

/// Chooses the indicator position from what could be read, in order of preference:
/// the UI Automation caret, the `GUITHREADINFO` caret (both already in screen
/// coordinates, moved 4 px right and down), the foreground window's rectangle,
/// and last the mouse cursor. Says which of them it used.
pub fn resolve_anchor(
    ui_caret: Option<(i32, i32)>,
    thread_caret: Option<(i32, i32)>,
    window: Option<Rect>,
    cursor: Option<(i32, i32)>,
) -> (chosen: (AnchorSource, (i32, i32)))
    requires
        anchor_inputs_fit(ui_caret, thread_caret, window, cursor),
    ensures
        chosen == spec_resolve_anchor(ui_caret, thread_caret, window, cursor),
        ui_caret matches Some(p) ==> chosen.1.0 == p.0 + 4 && chosen.1.1 == p.1 + 4,
{
    if let Some(point) = ui_caret {
        return (AnchorSource::UiAutomation, (point.0 + CARET_OFFSET, point.1 + CARET_OFFSET));
    }
    if let Some(point) = thread_caret {
        return (AnchorSource::GuiThreadInfo, (point.0 + CARET_OFFSET, point.1 + CARET_OFFSET));
    }
    if let Some(rect) = window {
        return (AnchorSource::ForegroundWindow, window_anchor(rect));
    }
    (AnchorSource::Cursor, cursor_anchor(cursor))
}

/// The screen position (upper left) at which the indicator should be shown, chosen
/// as `resolve_anchor` chooses it.
pub fn indicator_anchor(
    ui_caret: Option<(i32, i32)>,
    thread_caret: Option<(i32, i32)>,
    window: Option<Rect>,
    cursor: Option<(i32, i32)>,
) -> (anchor: (i32, i32))
    requires
        anchor_inputs_fit(ui_caret, thread_caret, window, cursor),
    ensures
        anchor == spec_resolve_anchor(ui_caret, thread_caret, window, cursor).1,
{
    let (_source, anchor) = resolve_anchor(ui_caret, thread_caret, window, cursor);
    anchor
}

/// A reading is used only when every reading preferred to it is missing: the caret
/// that UI Automation reports wins whenever it is there, the thread caret whenever
/// the former is missing, and the cursor only when nothing else could be read.
pub proof fn lemma_anchor_preference(
    ui_caret: Option<(i32, i32)>,
    thread_caret: Option<(i32, i32)>,
    window: Option<Rect>,
    cursor: Option<(i32, i32)>,
)
    ensures
        (spec_resolve_anchor(ui_caret, thread_caret, window, cursor).0 == AnchorSource::UiAutomation)
            <==> ui_caret is Some,
        (spec_resolve_anchor(ui_caret, thread_caret, window, cursor).0
            == AnchorSource::GuiThreadInfo) <==> (ui_caret is None && thread_caret is Some),
        (spec_resolve_anchor(ui_caret, thread_caret, window, cursor).0
            == AnchorSource::ForegroundWindow) <==> (ui_caret is None && thread_caret is None
            && window is Some),
        (spec_resolve_anchor(ui_caret, thread_caret, window, cursor).0 == AnchorSource::Cursor)
            <==> (ui_caret is None && thread_caret is None && window is None),
{
}

/// Where the indicator goes, reading by reading: 4 px right of and below the UI
/// Automation caret when there is one, else 4 px right of and below the thread caret,
/// else 32 px right of the foreground window's left edge and 64 px above its bottom
/// edge, else 16 px right of and below the mouse cursor, else at (100, 100). Each
/// coordinate comes from the same coordinate of the reading.
pub proof fn lemma_anchor_positions(
    ui_caret: Option<(i32, i32)>,
    thread_caret: Option<(i32, i32)>,
    window: Option<Rect>,
    cursor: Option<(i32, i32)>,
)
    requires
        anchor_inputs_fit(ui_caret, thread_caret, window, cursor),
    ensures
        ui_caret matches Some(p) ==> spec_resolve_anchor(ui_caret, thread_caret, window, cursor).1
            == ((p.0 + 4) as i32, (p.1 + 4) as i32),
        ui_caret is None ==> (thread_caret matches Some(p) ==> spec_resolve_anchor(
            ui_caret,
            thread_caret,
            window,
            cursor,
        ).1 == ((p.0 + 4) as i32, (p.1 + 4) as i32)),
        ui_caret is None && thread_caret is None ==> (window matches Some(w) ==> spec_resolve_anchor(
            ui_caret,
            thread_caret,
            window,
            cursor,
        ).1 == ((w.left + 32) as i32, (w.bottom - 64) as i32)),
        ui_caret is None && thread_caret is None && window is None ==> (cursor matches Some(c)
            ==> spec_resolve_anchor(ui_caret, thread_caret, window, cursor).1 == (
        (c.0 + 16) as i32,
        (c.1 + 16) as i32,
        )),
        ui_caret is None && thread_caret is None && window is None && cursor is None
            ==> spec_resolve_anchor(ui_caret, thread_caret, window, cursor).1 == (100i32, 100i32),
{
}

} // verus!
