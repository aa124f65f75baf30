use bevy::math::Vec3;
use plane_sketch::line_drawing::{
    clear_lines_system, handle_line_events, line_drawing_system, toggle_line_drawing_system,
    ClickOutcome, DrawableLine, LineDrawingState, LineSession,
};

fn completed(outcome: Option<ClickOutcome>) -> DrawableLine {
    match outcome {
        Some(ClickOutcome::Completed(line)) => line,
        other => panic!("expected a completed line, got {:?}", other),
    }
}

fn enabled_state() -> LineDrawingState {
    let mut state = LineDrawingState::default();
    toggle_line_drawing_system(&mut state, true);
    assert!(state.is_enabled);
    state
}

#[test]
fn gesture_makes_numbered_lines_and_clear_restarts_numbering() {
    let mut state = enabled_state();
    let a = Vec3::new(1.0, 0.0, 1.0);
    let b = Vec3::new(3.0, 0.0, 1.0);

    let step = line_drawing_system(&mut state, Some(a));
    assert!(matches!(step.click, Some(ClickOutcome::Started(p)) if p == a));
    assert_eq!(step.preview_from, Some(a));
    assert!(state.is_drawing);

    let step = line_drawing_system(&mut state, Some(b));
    let line = completed(step.click);
    assert_eq!(line.start, a);
    assert_eq!(line.end, b);
    assert_eq!(line.id, 0);
    assert_eq!((line.end - line.start).length(), 2.0);
    let d = line.end - line.start;
    assert_eq!(d.z.atan2(d.x).to_degrees(), 0.0);
    assert_eq!(step.preview_from, None);
    assert!(!state.is_drawing);

    line_drawing_system(&mut state, Some(Vec3::new(0.0, 0.0, 0.0)));
    let second = completed(line_drawing_system(&mut state, Some(Vec3::new(0.0, 0.0, 5.0))).click);
    assert_eq!(second.id, 1);
    assert_eq!(state.line_counter, 2);

    assert!(clear_lines_system(&mut state, true));
    assert_eq!(state.line_counter, 0);
    line_drawing_system(&mut state, Some(a));
    let third = completed(line_drawing_system(&mut state, Some(b)).click);
    assert_eq!(third.id, 0);
}

#[test]
fn disabling_mid_gesture_drops_the_start_point() {
    let mut state = enabled_state();
    let dropped = Vec3::new(7.0, 0.0, 7.0);
    line_drawing_system(&mut state, Some(dropped));
    assert!(state.is_drawing);

    toggle_line_drawing_system(&mut state, true);
    assert!(!state.is_enabled);
    assert!(!state.is_drawing);
    assert_eq!(state.start_point, None);

    toggle_line_drawing_system(&mut state, true);
    let p = Vec3::new(1.0, 0.0, 2.0);
    let q = Vec3::new(4.0, 0.0, 6.0);
    let first = line_drawing_system(&mut state, Some(p));
    assert!(matches!(first.click, Some(ClickOutcome::Started(s)) if s == p));
    let line = completed(line_drawing_system(&mut state, Some(q)).click);
    assert_eq!(line.start, p);
    assert_eq!(line.end, q);
    assert_eq!(line.id, 0);
}

#[test]
fn disabled_tool_ignores_clicks() {
    let mut state = LineDrawingState::default();
    let step = line_drawing_system(&mut state, Some(Vec3::new(1.0, 0.0, 1.0)));
    assert!(step.click.is_none());
    assert!(step.preview_from.is_none());
    assert!(!state.is_drawing);
    assert_eq!(state.start_point, None);
}

#[test]
fn frame_without_click_keeps_the_preview() {
    let mut state = enabled_state();
    let a = Vec3::new(2.0, 0.0, -1.0);
    line_drawing_system(&mut state, Some(a));
    let step = line_drawing_system(&mut state, None);
    assert!(step.click.is_none());
    assert_eq!(step.preview_from, Some(a));
    assert!(state.is_drawing);
}

#[test]
fn pending_flag_without_point_is_discarded() {
    let mut state = enabled_state();
    state.is_drawing = true;
    state.line_counter = 4;
    let step = line_drawing_system(&mut state, Some(Vec3::new(1.0, 0.0, 0.0)));
    assert!(matches!(step.click, Some(ClickOutcome::Discarded)));
    assert!(!state.is_drawing);
    assert_eq!(state.line_counter, 4);
}

#[test]
fn handle_click_directly() {
    let mut state = LineDrawingState::new();
    let a = Vec3::new(0.5, 0.0, 0.5);
    let b = Vec3::new(-0.5, 0.0, 0.5);
    assert!(matches!(state.handle_line_click(a), ClickOutcome::Started(p) if p == a));
    assert_eq!(state.preview_start(), Some(a));
    let line = match state.handle_line_click(b) {
        ClickOutcome::Completed(line) => line,
        other => panic!("unexpected {:?}", other),
    };
    assert_eq!((line.start, line.end, line.id), (a, b, 0));
    assert_eq!(state.preview_start(), None);
}

#[test]
fn line_events_enable_and_clear() {
    let mut state = LineDrawingState::default();
    assert!(!handle_line_events(&mut state, 1, 0));
    assert!(state.is_enabled);

    line_drawing_system(&mut state, Some(Vec3::new(1.0, 0.0, 1.0)));
    line_drawing_system(&mut state, Some(Vec3::new(2.0, 0.0, 1.0)));
    line_drawing_system(&mut state, Some(Vec3::new(3.0, 0.0, 1.0)));
    assert_eq!(state.line_counter, 1);
    assert!(state.is_drawing);

    assert!(handle_line_events(&mut state, 0, 2));
    assert_eq!(state.line_counter, 0);
    assert!(!state.is_drawing);
    assert_eq!(state.start_point, None);
    assert!(state.is_enabled);
}

#[test]
fn clear_key_not_pressed_changes_nothing() {
    let mut state = enabled_state();
    line_drawing_system(&mut state, Some(Vec3::new(1.0, 0.0, 1.0)));
    assert!(!clear_lines_system(&mut state, false));
    assert!(state.is_drawing);
    toggle_line_drawing_system(&mut state, false);
    assert!(state.is_enabled);
}

#[test]
fn session_keeps_completed_lines_in_order() {
    let mut session = LineSession::new();
    assert!(session.lines().is_empty());
    assert!(session.can_complete());

    let a = Vec3::new(1.0, 0.0, 1.0);
    let b = Vec3::new(3.0, 0.0, 1.0);
    assert!(session.frame(Some(a)).click.is_none());
    assert!(session.lines().is_empty());

    session.toggle(true);
    assert!(session.tool().is_enabled);
    session.frame(Some(a));
    assert!(session.lines().is_empty());
    assert_eq!(session.tool().start_point, Some(a));
    let step = session.frame(Some(b));
    assert!(matches!(step.click, Some(ClickOutcome::Completed(_))));
    assert_eq!(session.lines().len(), 1);
    assert_eq!(session.lines()[0].id, 0);
    assert_eq!(session.lines()[0].start, a);
    assert_eq!(session.lines()[0].end, b);

    session.frame(Some(b));
    session.frame(Some(a));
    assert_eq!(session.lines().len(), 2);
    assert_eq!(session.lines()[1].id, 1);
    assert_eq!(session.lines()[1].start, b);
    assert_eq!(session.tool().line_counter, 2);

    assert!(!session.clear(false));
    assert_eq!(session.lines().len(), 2);
    assert!(session.clear(true));
    assert!(session.lines().is_empty());
    assert_eq!(session.tool().line_counter, 0);

    session.frame(Some(a));
    session.frame(Some(b));
    assert_eq!(session.lines()[0].id, 0);
    assert!(!session.handle_events(1, 0));
    assert_eq!(session.lines().len(), 1);
    assert!(session.handle_events(0, 1));
    assert!(session.lines().is_empty());
    assert!(session.tool().is_enabled);
}

#[test]
fn session_disable_drops_pending_start() {
    let mut session = LineSession::new();
    session.toggle(true);
    session.frame(Some(Vec3::new(9.0, 0.0, 9.0)));
    assert!(session.tool().is_drawing);
    session.toggle(true);
    assert!(!session.tool().is_drawing);
    assert_eq!(session.tool().start_point, None);
    session.toggle(true);
    let p = Vec3::new(1.0, 0.0, 0.0);
    let q = Vec3::new(2.0, 0.0, 0.0);
    session.frame(Some(p));
    session.frame(Some(q));
    assert_eq!(session.lines().len(), 1);
    assert_eq!(session.lines()[0].start, p);
    assert_eq!(session.lines()[0].end, q);
}

#[test]
fn exhausted_counter_only_matters_for_a_completing_click() {
    let mut state = enabled_state();
    let a = Vec3::new(1.0, 0.0, 1.0);
    line_drawing_system(&mut state, Some(a));
    state.line_counter = u32::MAX;
    let step = line_drawing_system(&mut state, None);
    assert!(step.click.is_none());
    assert_eq!(step.preview_from, Some(a));
    assert_eq!(state.line_counter, u32::MAX);

    toggle_line_drawing_system(&mut state, true);
    let step = line_drawing_system(&mut state, Some(a));
    assert!(step.click.is_none());
    assert_eq!(state.line_counter, u32::MAX);
}
