use std::sync::Arc;
use std::time::Instant;

use radio_screen::combinators::{Either, Lens, Scope};
use radio_screen::display::{DisplayOp, RecordingDisplay, WrappingTextDisplay};
use radio_screen::formats::StationTags;
use radio_screen::geometry::{CursorPosition, Segment};
use radio_screen::messages::{
    OptionDiff, PingOutcome, PingTime, PingTimes, PipelineState, PlayerStateDiff, Span, Station,
    StationType, Track, TrackTags,
};
use radio_screen::state::{PlayerState, SharedStation};
use radio_screen::text::DisplayText;
use radio_screen::view::{
    app, buffering_of, caption_of, count_down, displayed_url_list_track_index, first_of,
    new_station_or_playing, new_station_ticks_after_update, no_station, ping_and_temperature_of,
    ping_of, ping_or_track_position, shown_track_number, station_index_of, station_not_found_of,
    station_or_none, station_tags_of, station_title_of, station_view,
    temperature_shown_after_event, temperature_shown_after_update, title_of, track_position_of,
    track_title_of, volume_and_pipeline_state_of, volume_and_pipeline_state_of_station,
    volume_and_pipeline_state_view, volume_or_pipeline_state, volume_ticks_after_update,
    BufferingOf, NewStationScope, PingOf, PingOrTrackPosition, Playing, StationIndexOf,
    StationNotFoundOf, StationOrNone, StationTagsOf, StationTitleOf, TemperatureTurns, TitleOf,
    TitleAndBuffer, TrackPositionOf, TrackTitleOf, VolumeOf, VolumeOfStation, VolumeScope,
    NEW_STATION_TICKS, STATUS_WIDTH, VOLUME_TICKS,
};
use radio_screen::widgets::{Widget, WidgetEvent};
use radio_screen::Temperature;

type Screen = WrappingTextDisplay<RecordingDisplay>;

fn screen() -> Screen {
    WrappingTextDisplay::new(RecordingDisplay::new())
}

fn tick() -> WidgetEvent {
    WidgetEvent::Tick(Instant::now())
}

/// What was written since the `from`-th request: for each cursor move the
/// cell and the characters that followed it.
fn written_since(display: &Screen, from: usize) -> Vec<((u8, u8), String)> {
    let mut runs: Vec<((u8, u8), String)> = Vec::new();
    for op in &display.character_display().ops()[from..] {
        match op {
            DisplayOp::Clear => runs.push(((255, 255), String::from("<clear>"))),
            DisplayOp::MoveCursor(position) => {
                runs.push(((position.row, position.column), String::new()))
            }
            DisplayOp::WriteChar(c) => runs.last_mut().unwrap().1.push(*c),
        }
    }
    runs
}

fn count(display: &Screen) -> usize {
    display.character_display().ops().len()
}

fn run(row: u8, column: u8, text: &str) -> ((u8, u8), String) {
    ((row, column), String::from(text))
}

fn some(text: &str) -> Option<String> {
    Some(String::from(text))
}

fn track(title: &str, is_notification: bool) -> Track {
    Track { title: some(title), album: some("Listed album"), artist: None, is_notification }
}

fn station(source_type: StationType, tracks: Vec<Track>) -> Station {
    Station { index: some("12"), title: some("One"), source_type, tracks }
}

fn playing(source_type: StationType, tracks: Vec<Track>) -> Playing {
    Playing {
        station: SharedStation { serial: 1, station: Arc::new(station(source_type, tracks)) },
        state: PlayerState::default(),
    }
}

fn ping(short_text: &str) -> PingTime {
    PingTime {
        span: Span { seconds: 0, nanoseconds: 1_500_000 },
        short_text: String::from(short_text),
        long_text: String::from(short_text.trim()),
    }
}

#[test]
fn view_constants() {
    assert_eq!(VOLUME_TICKS, 2);
    assert_eq!(NEW_STATION_TICKS, 2);
    assert_eq!(STATUS_WIDTH, 13);
}

#[test]
fn ticks_count_down_to_none() {
    assert_eq!(count_down(&2, &tick(), &()), 1);
    assert_eq!(count_down(&1, &tick(), &()), 0);
    assert_eq!(count_down(&0, &tick(), &()), 0);
}

#[test]
fn volume_is_shown_for_a_while_after_it_has_changed() {
    let playing = PipelineState::Playing;
    let paused = PipelineState::Paused;
    assert_eq!(volume_ticks_after_update(&0, &(5, paused), &(6, paused)), 2);
    assert_eq!(volume_ticks_after_update(&1, &(5, paused), &(5, paused)), 1);
    assert_eq!(volume_ticks_after_update(&2, &(5, paused), &(5, playing)), 0);
    assert_eq!(volume_ticks_after_update(&0, &(5, paused), &(6, playing)), 0);
}

#[test]
fn volume_or_what_the_player_is_doing() {
    assert!(matches!(volume_or_pipeline_state(&1, &(5, PipelineState::Paused)), Either::A(5)));
    assert!(matches!(volume_or_pipeline_state(&0, &(5, PipelineState::Playing)), Either::A(5)));
    assert!(matches!(
        volume_or_pipeline_state(&0, &(5, PipelineState::Paused)),
        Either::B(PipelineState::Paused)
    ));
}

#[test]
fn volume_field() {
    let mut display = screen();
    let mut view = volume_and_pipeline_state_view(Segment {
        position: CursorPosition { row: 0, column: 13 },
        length: 7,
    });
    let paused = (5, PipelineState::Paused);
    let louder = (6, PipelineState::Paused);
    let playing = (6, PipelineState::Playing);
    view.paint(&paused, &mut display);
    assert_eq!(written_since(&display, 0), vec![run(0, 13, " Paused")]);
    let painted = count(&display);
    view.update(&paused, &louder);
    view.paint(&louder, &mut display);
    assert_eq!(written_since(&display, painted), vec![run(0, 13, "Vol "), run(0, 17, "  6")]);
    let painted = count(&display);
    view.event(&tick(), &louder);
    view.paint(&louder, &mut display);
    assert_eq!(count(&display), painted);
    view.event(&tick(), &louder);
    view.paint(&louder, &mut display);
    assert_eq!(written_since(&display, painted), vec![run(0, 13, " Paused")]);
    let painted = count(&display);
    view.update(&louder, &playing);
    view.paint(&playing, &mut display);
    assert_eq!(written_since(&display, painted), vec![run(0, 13, "Vol "), run(0, 17, "  6")]);
}

#[test]
fn captions_of_optional_texts() {
    assert_eq!(caption_of(&some("abc")).to_text(), "abc");
    assert_eq!(caption_of(&None).to_text(), "");
    assert_eq!(first_of(&some("a"), &some("b")), some("a"));
    assert_eq!(first_of(&None, &some("b")), some("b"));
    assert_eq!(first_of(&None, &None), None);
}

#[test]
fn tracks_are_numbered_from_one_but_for_an_announcement() {
    let counted = station(StationType::UrlList, vec![track("a", false), track("b", false)]);
    let announced = station(StationType::UrlList, vec![track("a", true), track("b", false)]);
    let empty = station(StationType::UrlList, vec![]);
    assert_eq!(shown_track_number(&counted, 0), 1);
    assert_eq!(shown_track_number(&counted, 4), 5);
    assert_eq!(shown_track_number(&announced, 1), 1);
    assert_eq!(shown_track_number(&empty, 3), 3);
    assert_eq!(shown_track_number(&counted, usize::MAX), usize::MAX);
}

#[test]
fn number_of_the_track_of_a_list_of_addresses() {
    let counted = station(StationType::UrlList, vec![track("a", false), track("b", false)]);
    let announced = station(StationType::UrlList, vec![track("a", true), track("b", false)]);
    let empty = station(StationType::UrlList, vec![]);
    let mut state = PlayerState::default();
    assert_eq!(displayed_url_list_track_index(&counted, &state), None);
    assert_eq!(displayed_url_list_track_index(&empty, &state), None);
    state.current_track_index = 1;
    assert_eq!(displayed_url_list_track_index(&counted, &state), Some(2));
    assert_eq!(displayed_url_list_track_index(&announced, &state), None);
    state.current_track_index = 5;
    assert_eq!(displayed_url_list_track_index(&announced, &state), Some(5));
    assert_eq!(displayed_url_list_track_index(&empty, &state), None);
}

#[test]
fn temperature_takes_turns_with_the_ping() {
    let mut before = playing(StationType::UrlList, vec![]);
    let mut after = playing(StationType::UrlList, vec![]);
    assert!(!temperature_shown_after_event(&false, &tick(), &before));
    assert!(temperature_shown_after_event(&true, &tick(), &before));
    assert!(!temperature_shown_after_update(&false, &before, &after));
    assert!(temperature_shown_after_update(&true, &before, &after));
    before.state.ping_times = PingTimes::FinishedPingingRemote { gateway_ping: ping(" 1.5") };
    after.state.ping_times = PingTimes::FinishedPingingRemote { gateway_ping: ping(" 2.5") };
    assert!(temperature_shown_after_update(&false, &before, &after));
    assert!(!temperature_shown_after_update(&true, &before, &after));
    after.state.temperature = Temperature(48);
    assert_eq!(ping_and_temperature_of(&true, &after).to_text(), "CPU Temp 48C");
    assert_eq!(ping_and_temperature_of(&false, &after).to_text(), "LPing  2.5ms");
}

#[test]
fn place_in_the_track() {
    let mut data = playing(StationType::CD, vec![track("a", false), track("b", false)]);
    data.state.current_track_index = 1;
    data.state.track_position = Some(Span { seconds: 15, nanoseconds: 0 });
    data.state.track_duration = Some(Span { seconds: 240, nanoseconds: 0 });
    assert_eq!(track_position_of(&data).to_text(), "2, 15 of 240");
}

#[test]
fn status_by_the_kind_of_station() {
    assert!(matches!(
        ping_or_track_position(&playing(StationType::UrlList, vec![])),
        Either::A(_)
    ));
    assert!(matches!(ping_or_track_position(&playing(StationType::Usb, vec![])), Either::B(_)));
    assert!(matches!(ping_or_track_position(&playing(StationType::CD, vec![])), Either::B(_)));
    assert!(matches!(ping_or_track_position(&playing(StationType::Samba, vec![])), Either::B(_)));
}

#[test]
fn volume_and_state_of_the_player() {
    let mut data = playing(StationType::UrlList, vec![]);
    data.state.volume = 30;
    data.state.pipeline_state = PipelineState::Ready;
    assert!(matches!(volume_and_pipeline_state_of_station(&data), (30, PipelineState::Ready)));
    assert!(matches!(volume_and_pipeline_state_of(&data.state), (30, PipelineState::Ready)));
}

#[test]
fn tags_of_a_station() {
    let mut data = playing(StationType::Samba, vec![track("a", false), track("b", false)]);
    assert_eq!(station_tags_of(&data).to_text(), "One, Listed album");
    data.state.current_track_tags = Some(TrackTags {
        title: some("Played title"),
        organisation: some("Played station"),
        artist: some("Played artist"),
        album: None,
    });
    assert_eq!(station_tags_of(&data).to_text(), "Played station, Played artist, Listed album");
    data.state.current_track_index = 7;
    assert_eq!(station_tags_of(&data).to_text(), "Played station, Played artist");
    let mut data = playing(StationType::UrlList, vec![track("a", false), track("b", false)]);
    data.state.current_track_index = 1;
    assert!(
        station_tags_of(&data)
            == StationTags::UrlList { current_track_index: Some(2), station_title: some("One") }
    );
    let data = playing(StationType::CD, vec![track("a", false)]);
    assert!(station_tags_of(&data) == StationTags::CD { artist: None, album: some("Listed album") });
    let data = playing(StationType::Usb, vec![]);
    assert!(station_tags_of(&data) == StationTags::Usb { artist: None, album: None });
}

#[test]
fn title_of_the_track() {
    let mut data = playing(StationType::UrlList, vec![track("Listed title", false)]);
    data.state.buffering = 42;
    match track_title_of(&data) {
        Either::A(pair) => {
            assert_eq!(title_of(&pair).to_text(), "Listed title");
            assert_eq!(buffering_of(&pair), 42);
        }
        Either::B(_) => panic!("the title fits a row"),
    }
    data.state.current_track_tags = Some(TrackTags {
        title: some("A title of more than twenty characters"),
        organisation: None,
        artist: None,
        album: None,
    });
    match track_title_of(&data) {
        Either::B(title) => {
            assert_eq!(title.to_text(), "A title of more than twenty characters")
        }
        Either::A(_) => panic!("the title does not fit a row"),
    }
    data.state.current_track_tags = Some(TrackTags {
        title: some("Exactly twenty chars"),
        organisation: None,
        artist: None,
        album: None,
    });
    assert!(matches!(track_title_of(&data), Either::A(_)));
    let data = playing(StationType::CD, vec![track("Listed title", false)]);
    match track_title_of(&data) {
        Either::B(title) => assert_eq!(title.to_text(), "Listed title"),
        Either::A(_) => panic!("the station is no list of addresses"),
    }
    let data = playing(StationType::UrlList, vec![]);
    match track_title_of(&data) {
        Either::A(pair) => assert_eq!(pair.title.to_text(), ""),
        Either::B(_) => panic!("no title fits a row"),
    }
}

#[test]
fn message_of_a_station_that_was_not_found() {
    let mut state = PlayerState::default();
    assert!(station_not_found_of(&state).is_none());
    state.station_not_found = some("42");
    assert_eq!(station_not_found_of(&state).unwrap().to_text(), "No Station 42");
}

#[test]
fn ping_of_a_state() {
    let mut state = PlayerState::default();
    state.ping_times = PingTimes::Gateway(PingOutcome::Answered(ping(" 1.5")));
    assert_eq!(ping_of(&state).to_text(), "Gateway: 1.5ms");
}

#[test]
fn index_and_title_of_a_station() {
    let data = playing(StationType::UrlList, vec![]);
    assert_eq!(station_index_of(&data.station).to_text(), "12");
    assert_eq!(station_title_of(&data.station).to_text(), "One");
    let bare = SharedStation {
        serial: 2,
        station: Arc::new(Station {
            index: None,
            title: None,
            source_type: StationType::CD,
            tracks: vec![],
        }),
    };
    assert_eq!(station_index_of(&bare).to_text(), "");
    assert_eq!(station_title_of(&bare).to_text(), "");
}

#[test]
fn new_station_is_shown_alone_for_a_while() {
    let first = playing(StationType::UrlList, vec![]);
    let mut second = playing(StationType::UrlList, vec![]);
    assert_eq!(new_station_ticks_after_update(&0, &first, &second), 0);
    assert_eq!(new_station_ticks_after_update(&1, &first, &second), 1);
    second.station.serial = 2;
    assert_eq!(new_station_ticks_after_update(&0, &first, &second), 2);
    assert!(matches!(new_station_or_playing(&1, &first), Either::A(station) if station.serial == 1));
    assert!(matches!(new_station_or_playing(&0, &first), Either::B(_)));
}

#[test]
fn screen_by_whether_a_station_is_selected() {
    let mut state = PlayerState::default();
    assert!(matches!(station_or_none(&state), Either::B(_)));
    state.current_station = Some(playing(StationType::UrlList, vec![]).station);
    state.volume = 9;
    match station_or_none(&state) {
        Either::A(playing) => {
            assert_eq!(playing.station.serial, 1);
            assert_eq!(playing.state.volume, 9);
        }
        Either::B(_) => panic!("a station is selected"),
    }
}

#[test]
fn screen_without_a_station() {
    let mut display = screen();
    let mut view = no_station(String::from("192.168.0.7"));
    let mut state = PlayerState::default();
    view.paint(&state, &mut display);
    let runs = written_since(&display, 0);
    assert_eq!(runs.len(), 5);
    assert_eq!(
        runs[..3],
        [run(0, 0, "192.168.0.7  "), run(0, 13, "   Null"), run(1, 0, "No Ping Times       ")]
    );
    assert_eq!(runs[3].0, (2, 0));
    assert_eq!(runs[3].1.len(), 20);
    assert_eq!(&runs[3].1[15..], "     ");
    assert_eq!(runs[4].0, (3, 0));
    assert_eq!(runs[4].1.len(), 5);
    assert_eq!(&runs[4].1[2..3], ":");
    let painted = count(&display);
    let mut not_found = state.clone();
    not_found.station_not_found = some("42");
    view.update(&state, &not_found);
    state = not_found;
    view.paint(&state, &mut display);
    let runs: Vec<_> =
        written_since(&display, painted).into_iter().filter(|(cell, _)| cell.0 < 2).collect();
    assert_eq!(runs, vec![run(0, 0, "No Station 42")]);
}

#[test]
fn screen_of_a_station() {
    let mut display = screen();
    let mut view = station_view();
    let mut data = playing(StationType::UrlList, vec![track("Track", false)]);
    data.state.buffering = 7;
    view.paint(&data, &mut display);
    assert_eq!(
        written_since(&display, 0),
        vec![
            run(0, 0, "No Ping Times"),
            run(0, 13, "   Null"),
            run(1, 0, "One                 "),
            run(2, 0, "Track               "),
            run(3, 0, "7                   "),
        ]
    );
    let painted = count(&display);
    let mut next = data.clone();
    next.state.buffering = 8;
    next.state.ping_times = PingTimes::FinishedPingingRemote { gateway_ping: ping(" 1.5") };
    next.state.temperature = Temperature(48);
    view.update(&data, &next);
    view.paint(&next, &mut display);
    assert_eq!(
        written_since(&display, painted),
        vec![run(0, 0, "CPU Temp 48C "), run(3, 0, "8                   ")]
    );
}

#[test]
fn screen_of_a_station_that_is_no_list_of_addresses() {
    let mut display = screen();
    let mut view = station_view();
    let mut data = playing(StationType::CD, vec![track("a", false), track("Second", false)]);
    data.state.current_track_index = 1;
    data.state.pipeline_state = PipelineState::Playing;
    data.state.volume = 30;
    data.state.track_position = Some(Span { seconds: 15, nanoseconds: 0 });
    view.paint(&data, &mut display);
    assert_eq!(
        written_since(&display, 0),
        vec![
            run(0, 0, "2, 15 of ?   "),
            run(0, 13, "Vol "),
            run(0, 17, " 30"),
            run(1, 0, "Listed album        "),
            run(2, 0, "Second              "),
            run(3, 0, "                    "),
        ]
    );
}

#[test]
fn screen_of_the_radio() {
    let mut display = screen();
    let mut view = app(String::from("192.168.0.7"));
    let state = PlayerState::default();
    view.paint(&state, &mut display);
    assert_eq!(written_since(&display, 0)[0], run(0, 0, "192.168.0.7  "));
    let painted = count(&display);
    let mut diff = PlayerStateDiff::unchanged();
    diff.current_station =
        OptionDiff::ChangedToSome(station(StationType::UrlList, vec![track("Track", false)]));
    let selected = state.clone().apply_diff(diff);
    view.update(&state, &selected);
    view.paint(&selected, &mut display);
    assert_eq!(
        written_since(&display, painted),
        vec![run(0, 0, "12                  "), run(1, 0, "One                 ")]
    );
    let painted = count(&display);
    view.event(&tick(), &selected);
    view.paint(&selected, &mut display);
    assert_eq!(count(&display), painted);
    view.event(&tick(), &selected);
    view.paint(&selected, &mut display);
    assert_eq!(
        written_since(&display, painted),
        vec![
            run(0, 0, "No Ping Times"),
            run(0, 13, "   Null"),
            run(1, 0, "One                 "),
            run(2, 0, "Track               "),
            run(3, 0, "0                   "),
        ]
    );
    let painted = count(&display);
    let mut diff = PlayerStateDiff::unchanged();
    diff.current_station = OptionDiff::ChangedToNone;
    let gone = selected.clone().apply_diff(diff);
    view.update(&selected, &gone);
    view.paint(&gone, &mut display);
    assert_eq!(written_since(&display, painted)[0], run(0, 0, "192.168.0.7  "));
}

#[test]
fn lenses_take_what_their_functions_take() {
    let mut data = playing(StationType::CD, vec![track("a", false), track("Second", false)]);
    data.state.current_track_index = 1;
    data.state.volume = 30;
    data.state.buffering = 9;
    data.state.station_not_found = some("42");
    assert_eq!(TrackPositionOf.get(&data).to_text(), "2, ? of ?");
    assert!(matches!(PingOrTrackPosition.get(&data), Either::B(_)));
    assert!(matches!(VolumeOfStation.get(&data), (30, PipelineState::Null)));
    assert!(matches!(VolumeOf.get(&data.state), (30, PipelineState::Null)));
    assert_eq!(StationTagsOf.get(&data).to_text(), "Listed album");
    match TrackTitleOf.get(&data) {
        Either::B(title) => assert_eq!(title.to_text(), "Second"),
        Either::A(_) => panic!("the station is no list of addresses"),
    }
    let pair = TitleAndBuffer { title: caption_of(&some("Title")), buffering: 9 };
    assert_eq!(TitleOf.get(&pair).to_text(), "Title");
    assert_eq!(BufferingOf.get(&pair), 9);
    assert_eq!(StationNotFoundOf.get(&data.state).unwrap().to_text(), "No Station 42");
    assert_eq!(PingOf.get(&data.state).to_text(), "No Ping Times");
    assert_eq!(StationIndexOf.get(&data.station).to_text(), "12");
    assert_eq!(StationTitleOf.get(&data.station).to_text(), "One");
    assert!(matches!(StationOrNone.get(&data.state), Either::B(_)));
}

#[test]
fn scopes_keep_what_their_functions_keep() {
    let paused = (5, PipelineState::Paused);
    let louder = (6, PipelineState::Paused);
    let mut scope = VolumeScope { ticks: 0 };
    assert!(matches!(scope.data(&paused), Either::B(PipelineState::Paused)));
    scope.update(&paused, &louder);
    assert_eq!(scope.ticks, 2);
    assert!(matches!(scope.data(&louder), Either::A(6)));
    scope.event(&tick(), &louder);
    assert_eq!(scope.ticks, 1);
    scope.reset();
    assert_eq!(scope.ticks, 0);

    let before = playing(StationType::UrlList, vec![]);
    let mut after = playing(StationType::UrlList, vec![]);
    after.state.ping_times = PingTimes::BadUrl;
    let mut turns = TemperatureTurns { shown: false };
    turns.event(&tick(), &before);
    assert!(!turns.shown);
    turns.update(&before, &after);
    assert!(turns.shown);
    assert_eq!(turns.data(&after).to_text(), "Bad URL");
    turns.reset();
    assert!(!turns.shown);

    after.station.serial = 2;
    let mut scope = NewStationScope { ticks: 0 };
    assert!(matches!(scope.data(&before), Either::B(_)));
    scope.update(&before, &after);
    assert_eq!(scope.ticks, 2);
    assert!(matches!(scope.data(&after), Either::A(_)));
    scope.event(&tick(), &after);
    scope.event(&tick(), &after);
    scope.event(&tick(), &after);
    assert_eq!(scope.ticks, 0);
    scope.reset();
    assert_eq!(scope.ticks, 2);
}

#[test]
fn screen_of_a_station_with_a_long_title() {
    let mut display = screen();
    let mut view = station_view();
    let mut data = playing(StationType::UrlList, vec![track("Track", false)]);
    data.state.buffering = 7;
    data.state.current_track_tags = Some(TrackTags {
        title: some("A title of more than twenty characters"),
        organisation: None,
        artist: None,
        album: None,
    });
    view.paint(&data, &mut display);
    assert_eq!(
        written_since(&display, 0),
        vec![
            run(0, 0, "No Ping Times"),
            run(0, 13, "   Null"),
            run(1, 0, "One                 "),
            run(2, 0, "A title of more than"),
            run(3, 0, " twenty characters  "),
        ]
    );
}
