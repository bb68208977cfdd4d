use std::time::Instant;

use radio_screen::display::{DisplayOp, RecordingDisplay, WrappingTextDisplay};
use radio_screen::drivers::MockTemperatureSource;
use radio_screen::event_loop::{
    handle_event, on_log_message, on_state_changed, on_tick, Event, Flow, RunError,
};
use radio_screen::geometry::{CursorPosition, Segment};
use radio_screen::messages::{
    LogMessage, OptionDiff, PingOutcome, PingTime, PingTimes, PipelineState, PlayerError,
    PlayerStateDiff, RadioEvent, Span, Station, StationType, Track,
};
use radio_screen::state::PlayerState;
use radio_screen::view::app;
use radio_screen::widgets::{Label, Widget};
use radio_screen::combinators::WidgetExt;
use radio_screen::Temperature;

type Screen = WrappingTextDisplay<RecordingDisplay>;

fn screen() -> Screen {
    WrappingTextDisplay::new(RecordingDisplay::new())
}

/// What was written since the `from`-th request: for each cursor move the
/// cell and the characters that followed it.
fn written_since(display: &Screen, from: usize) -> Vec<((u8, u8), String)> {
    let mut runs: Vec<((u8, u8), String)> = Vec::new();
    for op in &display.character_display().ops()[from..] {
        match op {
            DisplayOp::Clear => runs.push(((255, 255), String::from("<clear>"))),
            DisplayOp::MoveCursor(position) => {
                runs.push(((position.row, position.column), String::new()))
            }
            DisplayOp::WriteChar(c) => runs.last_mut().unwrap().1.push(*c),
        }
    }
    runs
}

fn count(display: &Screen) -> usize {
    display.character_display().ops().len()
}

fn run(row: u8, column: u8, text: &str) -> ((u8, u8), String) {
    ((row, column), String::from(text))
}

fn clear() -> ((u8, u8), String) {
    ((255, 255), String::from("<clear>"))
}

fn volume_view() -> impl Widget<Data = PlayerState> {
    Label::<i32>::new(Segment { position: CursorPosition { row: 0, column: 0 }, length: 4 })
        .with_lens(|state: &PlayerState| state.volume)
        .group(
            Label::<u8>::new(Segment { position: CursorPosition { row: 1, column: 0 }, length: 4 })
                .with_lens(|state: &PlayerState| state.temperature.0),
        )
}

fn station() -> Station {
    Station {
        index: Some(String::from("12")),
        title: Some(String::from("One")),
        source_type: StationType::UrlList,
        tracks: vec![Track {
            title: Some(String::from("Track")),
            album: None,
            artist: None,
            is_notification: false,
        }],
    }
}

fn state_changed(diff: PlayerStateDiff) -> Event {
    Event::RradioEvent(Ok(RadioEvent::PlayerStateChanged(diff)))
}

#[test]
fn error_of_the_connection_ends_the_loop() {
    let mut state = PlayerState::default();
    let mut view = volume_view();
    let mut display = screen();
    let outcome = handle_event(
        &mut state,
        &mut view,
        &mut MockTemperatureSource(0),
        &mut display,
        "1.0",
        Event::RradioEvent(Err(RunError::Parse(String::from("bad marker")))),
    );
    assert!(matches!(outcome, Err(RunError::Parse(cause)) if cause == "bad marker"));
    assert_eq!(count(&display), 0);
}

#[test]
fn player_of_the_same_version_changes_nothing_and_is_painted() {
    let mut state = PlayerState::default();
    let mut view = volume_view();
    let mut display = screen();
    let outcome = handle_event(
        &mut state,
        &mut view,
        &mut MockTemperatureSource(0),
        &mut display,
        "1.0",
        Event::RradioEvent(Ok(RadioEvent::ProtocolVersion(String::from("1.0")))),
    );
    assert!(matches!(outcome, Ok(Flow::Wait)));
    assert_eq!(state.volume, -1);
    assert_eq!(written_since(&display, 0), vec![run(0, 0, "-1  "), run(1, 0, "255 ")]);
    let painted = count(&display);
    let outcome = handle_event(
        &mut state,
        &mut view,
        &mut MockTemperatureSource(0),
        &mut display,
        "1.0",
        Event::RradioEvent(Ok(RadioEvent::ProtocolVersion(String::from("1.0")))),
    );
    assert!(matches!(outcome, Ok(Flow::Wait)));
    assert_eq!(count(&display), painted);
}

#[test]
fn player_of_another_version_ends_the_loop() {
    let mut state = PlayerState::default();
    let mut view = volume_view();
    let mut display = screen();
    let outcome = handle_event(
        &mut state,
        &mut view,
        &mut MockTemperatureSource(0),
        &mut display,
        "1.0",
        Event::RradioEvent(Ok(RadioEvent::ProtocolVersion(String::from("0.9")))),
    );
    match outcome {
        Err(error) => {
            assert_eq!(error.message(), "Bad rradio version. rradio: 0.9, screen: 1.0")
        }
        Ok(_) => panic!("the versions differ"),
    }
    assert_eq!(count(&display), 0);
}

#[test]
fn end_of_the_connection_ends_the_loop() {
    let mut state = PlayerState::default();
    let mut view = volume_view();
    let mut display = screen();
    let outcome = handle_event(
        &mut state,
        &mut view,
        &mut MockTemperatureSource(0),
        &mut display,
        "1.0",
        Event::Done,
    );
    assert!(matches!(outcome, Ok(Flow::Stop)));
    assert_eq!(count(&display), 0);
    assert_eq!(state.volume, -1);
}

#[test]
fn change_of_state_is_taken_and_painted() {
    let mut state = PlayerState::default();
    let mut view = volume_view();
    let mut display = screen();
    let mut source = MockTemperatureSource(40);
    let mut diff = PlayerStateDiff::unchanged();
    diff.volume = Some(7);
    let outcome =
        handle_event(&mut state, &mut view, &mut source, &mut display, "1.0", state_changed(diff));
    assert!(matches!(outcome, Ok(Flow::Wait)));
    assert_eq!(state.volume, 7);
    assert_eq!(state.temperature, Temperature(255));
    assert_eq!(source.0, 40);
    assert_eq!(written_since(&display, 0), vec![run(0, 0, "7   "), run(1, 0, "255 ")]);
}

#[test]
fn change_of_ping_times_brings_a_new_temperature() {
    let mut state = PlayerState::default();
    let mut view = volume_view();
    let mut display = screen();
    let mut source = MockTemperatureSource(40);
    view.paint(&state, &mut display);
    let painted = count(&display);
    let mut diff = PlayerStateDiff::unchanged();
    diff.ping_times = Some(PingTimes::Gateway(PingOutcome::Answered(PingTime {
        span: Span { seconds: 0, nanoseconds: 1_500_000 },
        short_text: String::from(" 1.5"),
        long_text: String::from("1.5"),
    })));
    on_state_changed(&mut state, &mut view, &mut source, &mut display, diff);
    assert_eq!(state.temperature, Temperature(41));
    assert!(matches!(state.ping_times, PingTimes::Gateway(_)));
    assert_eq!(written_since(&display, painted), vec![run(1, 0, "41  ")]);
}

#[test]
fn change_of_station_clears_the_screen_and_paints_all() {
    let mut state = PlayerState::default();
    let mut view = volume_view();
    let mut display = screen();
    let mut source = MockTemperatureSource(40);
    view.paint(&state, &mut display);
    let painted = count(&display);
    let mut diff = PlayerStateDiff::unchanged();
    diff.current_station = OptionDiff::ChangedToSome(station());
    on_state_changed(&mut state, &mut view, &mut source, &mut display, diff);
    assert!(state.current_station.is_some());
    assert_eq!(
        written_since(&display, painted),
        vec![clear(), run(0, 0, "-1  "), run(1, 0, "255 ")]
    );
    let painted = count(&display);
    let mut diff = PlayerStateDiff::unchanged();
    diff.current_station = OptionDiff::ChangedToNone;
    on_state_changed(&mut state, &mut view, &mut source, &mut display, diff);
    assert!(state.current_station.is_none());
    assert_eq!(
        written_since(&display, painted),
        vec![clear(), run(0, 0, "-1  "), run(1, 0, "255 ")]
    );
}

#[test]
fn change_that_the_view_does_not_show_paints_nothing() {
    let mut state = PlayerState::default();
    let mut view = volume_view();
    let mut display = screen();
    view.paint(&state, &mut display);
    let painted = count(&display);
    let mut diff = PlayerStateDiff::unchanged();
    diff.pipeline_state = Some(PipelineState::Playing);
    on_state_changed(&mut state, &mut view, &mut MockTemperatureSource(0), &mut display, diff);
    assert!(state.pipeline_state == PipelineState::Playing);
    assert_eq!(count(&display), painted);
}

#[test]
fn log_message_is_taken_into_the_state() {
    let mut state = PlayerState::default();
    let mut view = volume_view();
    let mut display = screen();
    let outcome = handle_event(
        &mut state,
        &mut view,
        &mut MockTemperatureSource(0),
        &mut display,
        "1.0",
        Event::RradioEvent(Ok(RadioEvent::LogMessage(LogMessage::Error(
            PlayerError::StationNotFound { index: String::from("42") },
        )))),
    );
    assert!(matches!(outcome, Ok(Flow::Wait)));
    assert_eq!(state.station_not_found.as_deref(), Some("42"));
    assert_eq!(written_since(&display, 0), vec![run(0, 0, "-1  "), run(1, 0, "255 ")]);
    let painted = count(&display);
    on_log_message(
        &mut state,
        &mut view,
        &mut display,
        LogMessage::Error(PlayerError::Other { text: String::from("oops") }),
    );
    assert!(state.current_error.is_some());
    assert_eq!(count(&display), painted);
}

#[test]
fn tick_is_told_to_the_view() {
    let mut state = PlayerState::default();
    let mut view = app(String::from("192.168.0.7"));
    let mut display = screen();
    let mut source = MockTemperatureSource(0);
    let mut diff = PlayerStateDiff::unchanged();
    diff.volume = Some(5);
    on_state_changed(&mut state, &mut view, &mut source, &mut display, diff);
    let top_right = |display: &Screen, from: usize| -> Vec<((u8, u8), String)> {
        written_since(display, from)
            .into_iter()
            .filter(|(cell, _)| cell.0 == 0 && cell.1 >= 13)
            .collect()
    };
    assert_eq!(top_right(&display, 0), vec![run(0, 13, "Vol "), run(0, 17, "  5")]);
    let painted = count(&display);
    let outcome = handle_event(
        &mut state,
        &mut view,
        &mut source,
        &mut display,
        "1.0",
        Event::TickEvent(Instant::now()),
    );
    assert!(matches!(outcome, Ok(Flow::Wait)));
    assert_eq!(top_right(&display, painted), vec![]);
    let painted = count(&display);
    on_tick(&state, &mut view, &mut display, Instant::now());
    assert_eq!(top_right(&display, painted), vec![run(0, 13, "   Null")]);
    assert_eq!(state.volume, 5);
}
