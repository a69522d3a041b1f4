use window_config::{
    capture_placement, decode_placement, encode_placement, load_from, on_close_requested,
    placement_from_record, placement_to_record, AppEvent, AppState, CloseAction, ConfigError,
    ReadOutcome, WindowPlacement, WindowPosition,
};

fn round_trip(p: WindowPlacement) {
    let text = encode_placement(&p);
    assert_eq!(decode_placement(&text), Ok(p));
    assert_eq!(load_from(&ReadOutcome::Contents(text)), Ok(p));
}

#[test]
fn round_trip_centered() {
    round_trip(WindowPlacement::centered());
}

#[test]
fn round_trip_origin() {
    round_trip(WindowPlacement::at(0, 0));
}

#[test]
fn round_trip_negative() {
    round_trip(WindowPlacement::at(-1920, -5));
}

#[test]
fn round_trip_extremes() {
    round_trip(WindowPlacement::at(i32::MAX, i32::MIN));
    round_trip(WindowPlacement::at(i32::MIN, i32::MAX));
}

#[test]
fn encoded_text_is_ron() {
    assert_eq!(encode_placement(&WindowPlacement::centered()), "None");
    assert_eq!(encode_placement(&WindowPlacement::at(120, 340)), "Some((120,340))");
    assert_eq!(encode_placement(&WindowPlacement::at(-3, 0)), "Some((-3,0))");
    assert_eq!(
        encode_placement(&WindowPlacement::at(i32::MIN, i32::MAX)),
        "Some((-2147483648,2147483647))"
    );
}

#[test]
fn record_mapping() {
    assert_eq!(placement_to_record(&WindowPlacement::centered()), None);
    assert_eq!(placement_to_record(&WindowPlacement::at(7, -8)), Some((7, -8)));
    assert_eq!(placement_from_record(None), WindowPlacement::centered());
    assert_eq!(
        placement_from_record(Some((7, -8))).position,
        WindowPosition::At(7, -8)
    );
}

#[test]
fn missing_file_loads_centered() {
    assert_eq!(
        load_from(&ReadOutcome::Missing),
        Ok(WindowPlacement { position: WindowPosition::Centered })
    );
}

#[test]
fn unreadable_file_is_an_error() {
    assert_eq!(load_from(&ReadOutcome::Unreadable), Err(ConfigError::Unreadable));
}

#[test]
fn corrupt_file_is_an_error() {
    for text in ["Some((1,", "(position:", "garbage", "Some((1,2,3))", ""] {
        assert_eq!(
            load_from(&ReadOutcome::Contents(text.to_string())),
            Err(ConfigError::Malformed),
            "{text:?}"
        );
    }
}

#[test]
fn stored_centered_loads_centered() {
    assert_eq!(
        load_from(&ReadOutcome::Contents("None".to_string())),
        Ok(WindowPlacement::centered())
    );
    let text = encode_placement(&WindowPlacement::centered());
    assert_eq!(
        load_from(&ReadOutcome::Contents(text)),
        Ok(WindowPlacement::centered())
    );
}

#[test]
fn hand_written_record_loads() {
    assert_eq!(
        decode_placement(" Some( ( 3 , -4 ) ) "),
        Ok(WindowPlacement::at(3, -4))
    );
}

#[test]
fn close_saves_negative_position() {
    match on_close_requested(1, Some((-1920, -50))) {
        CloseAction::SaveAndClose(text) => {
            assert_eq!(text, "Some((-1920,-50))");
            assert_eq!(decode_placement(&text), Ok(WindowPlacement::at(-1920, -50)));
        }
        other => panic!("unexpected {other:?}"),
    }
}

#[test]
fn capture_needs_a_position() {
    assert_eq!(capture_placement(Some((5, 6))), Ok(WindowPlacement::at(5, 6)));
    assert_eq!(capture_placement(None), Err(ConfigError::PositionUnavailable));
}

#[test]
fn close_without_request_does_nothing() {
    assert_eq!(on_close_requested(0, Some((1, 2))), CloseAction::Ignore);
    assert_eq!(on_close_requested(0, None), CloseAction::Ignore);
}

#[test]
fn close_without_position_aborts() {
    assert_eq!(
        on_close_requested(2, None),
        CloseAction::Abort(ConfigError::PositionUnavailable)
    );
}

#[test]
fn close_saves_then_closes() {
    assert_eq!(
        on_close_requested(1, Some((120, 340))),
        CloseAction::SaveAndClose("Some((120,340))".to_string())
    );
}

#[test]
fn lifecycle_runs_forward_only() {
    let s = AppState::Booting;
    assert_eq!(s.next(AppEvent::CloseRequested), AppState::Booting);
    let s = s.next(AppEvent::WindowCreated);
    assert_eq!(s, AppState::Running);
    let s = s.next(AppEvent::CloseRequested);
    assert_eq!(s, AppState::ClosingRequested);
    assert_eq!(s.next(AppEvent::WindowCreated), AppState::ClosingRequested);
    assert_eq!(s.next(AppEvent::CloseRequested), AppState::ClosingRequested);
    let s = s.next(AppEvent::WindowDestroyed);
    assert_eq!(s, AppState::Terminated);
    assert_eq!(s.next(AppEvent::WindowCreated), AppState::Terminated);
}

#[test]
fn fresh_start_then_move_then_relaunch() {
    let mut file: Option<String> = None;
    let read = |file: &Option<String>| match file {
        None => ReadOutcome::Missing,
        Some(t) => ReadOutcome::Contents(t.clone()),
    };

    let mut state = AppState::Booting;
    let first = load_from(&read(&file)).unwrap();
    assert_eq!(first.position, WindowPosition::Centered);
    state = state.next(AppEvent::WindowCreated);

    state = state.next(AppEvent::CloseRequested);
    assert_eq!(state, AppState::ClosingRequested);
    match on_close_requested(1, Some((120, 340))) {
        CloseAction::SaveAndClose(text) => file = Some(text),
        other => panic!("unexpected {other:?}"),
    }
    state = state.next(AppEvent::WindowDestroyed);
    assert_eq!(state, AppState::Terminated);

    let second = load_from(&read(&file)).unwrap();
    assert_eq!(second.position, WindowPosition::At(120, 340));
}
