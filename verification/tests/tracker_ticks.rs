use seltrack::commands::{CaptureCache, CaptureResult, ParagraphInfo};
use seltrack::tracker::{
    GuardOutcome, TrackerState, TriggerMode, SCREEN_EDGE_PADDING, TRIGGER_MIN_HEIGHT,
    TRIGGER_PARAGRAPH_WIDTH, TRIGGER_SELECTION_WIDTH, TRIGGER_WINDOW_GAP,
};

fn utf16(s: &str) -> Vec<u16> {
    s.encode_utf16().collect()
}

fn cap(x: i64, y: i64, width: i64, height: i64, line_start_x: Option<i64>) -> CaptureResult {
    CaptureResult { text: utf16("hello"), x, y, width, height, line_start_x }
}

fn para(x: i64, y: i64, width: i64, height: i64, line_start_x: Option<i64>) -> ParagraphInfo {
    ParagraphInfo {
        text: utf16("beta gamma"),
        x,
        y,
        width,
        height,
        line_start_x,
        range_location: 6,
        range_length: 10,
    }
}

#[test]
fn guards_suppress_when_panel_is_visible() {
    let mut state = TrackerState::new();
    let mut cache = CaptureCache::new();
    let actions = state.tick_selection(&mut cache, cap(10000, 20000, 5000, 1600, None));
    assert!(actions.reposition.is_some());

    let outcome = state.tick_guards(true, false, false);
    assert_eq!(outcome, GuardOutcome::SuppressAndHide);
    assert!(state.pinned_selection.is_none());
    assert!(state.pinned_button.is_none());
    assert!(state.current_mode.is_none());
}

#[test]
fn guards_skip_when_indicator_is_focused() {
    let mut state = TrackerState::new();
    let outcome = state.tick_guards(false, false, true);
    assert_eq!(outcome, GuardOutcome::SkipTick);
    let outcome = state.tick_guards(false, false, false);
    assert_eq!(outcome, GuardOutcome::Proceed);
}

#[test]
fn first_selection_tick_does_everything() {
    let mut state = TrackerState::new();
    let mut cache = CaptureCache::new();
    let actions = state.tick_selection(&mut cache, cap(10000, 20000, 5000, 1600, Some(9000)));
    assert!(actions.refresh_app_identity);
    assert!(actions.emit_selection_mode);
    let rect = actions.reposition.unwrap();
    // Anchored left of the resolved line start by width plus gap.
    assert_eq!(rect.x, 9000 - TRIGGER_SELECTION_WIDTH - TRIGGER_WINDOW_GAP);
    assert_eq!(rect.y, 20000);
    assert_eq!(rect.width, TRIGGER_SELECTION_WIDTH);
    assert_eq!(rect.height, 1600);
    assert_eq!(state.current_mode, Some(TriggerMode::Selection));
    assert!(cache.get_cached_capture().is_some());
}

#[test]
fn identity_requery_exactly_when_beyond_tolerance() {
    // Re-query happens iff the text length differs or some coordinate
    // moved by more than half a unit (50 centi-units).
    let mut state = TrackerState::new();
    let mut cache = CaptureCache::new();
    state.tick_selection(&mut cache, cap(10000, 20000, 5000, 1600, Some(9000)));

    // Within tolerance on every axis: no re-query.
    let a = state.tick_selection(&mut cache, cap(10040, 19960, 5050, 1600, Some(9000)));
    assert!(!a.refresh_app_identity);

    // One coordinate beyond tolerance: re-query.
    let a = state.tick_selection(&mut cache, cap(10000, 20000, 5000, 1660, Some(9000)));
    assert!(a.refresh_app_identity);

    // Back within tolerance of the new pin: no re-query.
    let a = state.tick_selection(&mut cache, cap(10000, 20000, 5000, 1650, Some(9000)));
    assert!(!a.refresh_app_identity);

    // Same geometry but different text length: re-query.
    let mut longer = cap(10000, 20000, 5000, 1650, Some(9000));
    longer.text = utf16("hello!");
    let a = state.tick_selection(&mut cache, longer);
    assert!(a.refresh_app_identity);

    // Anchor moved beyond tolerance: re-query.
    let a = state.tick_selection(&mut cache, cap(10000, 20000, 5000, 1650, Some(8920)));
    assert!(a.refresh_app_identity);
}

#[test]
fn indicator_not_repositioned_within_tolerance() {
    let mut state = TrackerState::new();
    let mut cache = CaptureCache::new();
    state.tick_selection(&mut cache, cap(10000, 20000, 5000, 1600, Some(9000)));

    // The rectangle moves by less than half a unit: no repositioning.
    let a = state.tick_selection(&mut cache, cap(10000, 20030, 5000, 1600, Some(9020)));
    assert!(a.reposition.is_none());

    // Beyond half a unit: repositioned.
    let a = state.tick_selection(&mut cache, cap(10000, 20100, 5000, 1600, Some(9000)));
    assert!(a.reposition.is_some());
}

#[test]
fn mode_event_only_on_transition() {
    let mut state = TrackerState::new();
    let mut cache = CaptureCache::new();
    let a = state.tick_selection(&mut cache, cap(10000, 20000, 5000, 1600, None));
    assert!(a.emit_selection_mode);
    let a = state.tick_selection(&mut cache, cap(10000, 20000, 5000, 1600, None));
    assert!(!a.emit_selection_mode);

    let a = state.tick_paragraph(&mut cache, para(10000, 20000, 5000, 1700, None));
    assert!(a.emit_paragraph_mode);
    let a = state.tick_paragraph(&mut cache, para(10000, 20000, 5000, 1700, None));
    assert!(!a.emit_paragraph_mode);
}

#[test]
fn indicator_geometry_clamps_to_screen_edge_and_min_height() {
    let mut state = TrackerState::new();
    let mut cache = CaptureCache::new();
    // Anchor so far left the indicator would leave the screen, and a
    // selection shorter than the minimum indicator height.
    let a = state.tick_selection(&mut cache, cap(500, 20000, 5000, 1000, Some(500)));
    let rect = a.reposition.unwrap();
    assert_eq!(rect.x, SCREEN_EDGE_PADDING);
    assert_eq!(rect.height, TRIGGER_MIN_HEIGHT);
    // Vertically centered: shifted up by half the height differences.
    assert_eq!(rect.y, 20000 - (TRIGGER_MIN_HEIGHT - 1000) / 2);
}

#[test]
fn paragraph_tick_uses_thin_indicator() {
    let mut state = TrackerState::new();
    let mut cache = CaptureCache::new();
    let a = state.tick_paragraph(&mut cache, para(11000, 22000, 30000, 1700, Some(11050)));
    let rect = a.reposition.unwrap();
    assert_eq!(rect.width, TRIGGER_PARAGRAPH_WIDTH);
    assert_eq!(rect.x, 11050 - TRIGGER_PARAGRAPH_WIDTH - TRIGGER_WINDOW_GAP);
    assert!(cache.get_cached_paragraph().is_some());
    assert!(cache.get_cached_capture().is_none());
}

#[test]
fn selection_failure_then_nothing_hides_everything() {
    let mut state = TrackerState::new();
    let mut cache = CaptureCache::new();
    state.tick_selection(&mut cache, cap(10000, 20000, 5000, 1600, None));

    state.tick_selection_failed(&mut cache);
    assert!(state.pinned_selection.is_none());
    assert!(cache.get_cached_capture().is_none());

    state.tick_nothing(&mut cache);
    assert!(state.pinned_button.is_none());
    assert!(state.current_mode.is_none());
    assert!(cache.get_cached_paragraph().is_none());
}

#[test]
fn caches_are_mutually_exclusive() {
    let mut state = TrackerState::new();
    let mut cache = CaptureCache::new();
    state.tick_selection(&mut cache, cap(10000, 20000, 5000, 1600, None));
    assert!(cache.get_cached_capture().is_some());
    assert!(cache.get_cached_paragraph().is_none());

    state.tick_selection_failed(&mut cache);
    state.tick_paragraph(&mut cache, para(10000, 20000, 5000, 1700, None));
    assert!(cache.get_cached_capture().is_none());
    assert!(cache.get_cached_paragraph().is_some());
}

#[test]
fn anchor_falls_back_to_rectangle_left_edge() {
    let mut state = TrackerState::new();
    let mut cache = CaptureCache::new();
    let a = state.tick_selection(&mut cache, cap(10000, 20000, 5000, 1600, None));
    let rect = a.reposition.unwrap();
    assert_eq!(rect.x, 10000 - TRIGGER_SELECTION_WIDTH - TRIGGER_WINDOW_GAP);
}
