//! The state of the player as the screen knows it, and how what arrives
//! from the player changes it.

use std::sync::Arc;
use vstd::prelude::*;

use crate::messages::{
    share, LogMessage, OptionDiff, PingTimes, PipelineState, PlayerError, PlayerStateDiff, Span,
    Station, TrackTags,
};
use crate::text::{Chars, DisplayText};
use crate::Temperature;

verus! {

/// The serial number that follows `serial`; after the largest comes zero.
pub open spec fn next_serial(serial: u64) -> u64 {
    if serial == u64::MAX {
        0
    } else {
        (serial + 1) as u64
    }
}

/// A station that was selected, shared by all the states that hold it. Two
/// of them are the same selection if their serial numbers are equal, however
/// alike the stations may be.
pub struct SharedStation {
    /// The number of the selection: each selection gets the next number.
    pub serial: u64,
    pub station: Arc<Station>,
}

impl Clone for SharedStation {
    fn clone(&self) -> (r: Self)
        ensures
            r == *self,
    {
        SharedStation { serial: self.serial, station: share(&self.station) }
    }
}

/// An error that the player reported. Two of them are the same report if
/// their serial numbers are equal, however alike the texts may be.
pub struct SharedError {
    /// The number of the report: each report gets the next number.
    pub serial: u64,
    /// The text that describes the error.
    pub text: String,
}

impl Clone for SharedError {
    fn clone(&self) -> (r: Self)
        ensures
            r == *self,
    {
        SharedError { serial: self.serial, text: self.text.clone() }
    }
}

impl PartialEq for SharedError {
    fn eq(&self, other: &Self) -> (r: bool) {
        self.serial == other.serial
    }
}

impl vstd::std_specs::cmp::PartialEqSpecImpl for SharedError {
    open spec fn obeys_eq_spec() -> bool {
        true
    }

    open spec fn eq_spec(&self, other: &Self) -> bool {
        self.serial == other.serial
    }
}

impl DisplayText for SharedError {
    open spec fn text(&self) -> Chars {
        self.text@
    }

    fn to_text(&self) -> (r: String) {
        self.text.clone()
    }
}

/// Takes a new value where there is one.
pub fn update_value<T>(current_value: &mut T, diff_value: Option<T>)
    ensures
        *final(current_value) == match diff_value {
            Some(new_value) => new_value,
            None => *old(current_value),
        },
{
    if let Some(new_value) = diff_value {
        *current_value = new_value;
    }
}

/// Takes a change of something that may be there or not.
pub fn update_option<T>(current_value: &mut Option<T>, diff_value: OptionDiff<T>)
    ensures
        *final(current_value) == match diff_value {
            OptionDiff::NoChange => *old(current_value),
            OptionDiff::ChangedToNone => None,
            OptionDiff::ChangedToSome(new_value) => Some(new_value),
        },
{
    update_value(current_value, diff_value.into_option())
}

/// Whether `after` is what a change of station makes of `before`, where a
/// station that is selected gets the number `serial`.
pub open spec fn station_updated(
    before: Option<SharedStation>,
    serial: u64,
    diff_value: OptionDiff<Station>,
    after: Option<SharedStation>,
) -> bool {
    match diff_value {
        OptionDiff::NoChange => after == before,
        OptionDiff::ChangedToNone => after is None,
        OptionDiff::ChangedToSome(station) => {
            &&& after matches Some(shared)
            &&& shared.serial == serial
            &&& *shared.station == station
        },
    }
}

/// Takes a change of station: a station that is selected becomes a shared
/// one, with the number `serial`.
pub fn update_option_arc(
    current_value: &mut Option<SharedStation>,
    serial: u64,
    diff_value: OptionDiff<Station>,
)
    ensures
        station_updated(*old(current_value), serial, diff_value, *final(current_value)),
{
    match diff_value.into_option() {
        Some(Some(station)) => {
            *current_value = Some(SharedStation { serial, station: Arc::new(station) });
        },
        Some(None) => {
            *current_value = None;
        },
        None => {},
    }
}

/// All that the screen knows of the player.
pub struct PlayerState {
    pub pipeline_state: PipelineState,
    pub current_station: Option<SharedStation>,
    pub current_track_index: usize,
    pub current_track_tags: Option<TrackTags>,
    pub volume: i32,
    pub buffering: u8,
    pub track_duration: Option<Span>,
    pub track_position: Option<Span>,
    pub ping_times: PingTimes,
    /// The index that was asked for when no station had it.
    pub station_not_found: Option<String>,
    /// The error that the player reported last.
    pub current_error: Option<SharedError>,
    pub temperature: Temperature,
    /// The serial number of the station that was selected last.
    pub stations_selected: u64,
    /// The serial number of the error that was reported last.
    pub errors_reported: u64,
}

impl Clone for PlayerState {
    fn clone(&self) -> (r: Self)
        ensures
            r == *self,
    {
        PlayerState {
            pipeline_state: self.pipeline_state,
            current_station: self.current_station.clone(),
            current_track_index: self.current_track_index,
            current_track_tags: self.current_track_tags.clone(),
            volume: self.volume,
            buffering: self.buffering,
            track_duration: self.track_duration,
            track_position: self.track_position,
            ping_times: self.ping_times.clone(),
            station_not_found: self.station_not_found.clone(),
            current_error: self.current_error.clone(),
            temperature: self.temperature,
            stations_selected: self.stations_selected,
            errors_reported: self.errors_reported,
        }
    }
}

impl PlayerState {
    /// The state before anything is known: no station, the pipeline not set
    /// up, the volume -1, the temperature 255.
    pub open spec fn initial() -> PlayerState {
        PlayerState {
            pipeline_state: PipelineState::Null,
            current_station: None,
            current_track_index: 0,
            current_track_tags: None,
            volume: -1i32,
            buffering: 0,
            track_duration: None,
            track_position: None,
            ping_times: PingTimes::NoPings,
            station_not_found: None,
            current_error: None,
            temperature: Temperature(255),
            stations_selected: 0,
            errors_reported: 0,
        }
    }

    /// Whether the serial numbers of the state are in order: the station it
    /// holds bears the number of the selection that was made last, and the
    /// error it holds the number of the report that was made last. The next
    /// selection and the next report then get numbers that what the state
    /// holds does not bear.
    pub open spec fn consistent(self) -> bool {
        &&& self.current_station matches Some(station) ==> station.serial
            == self.stations_selected
        &&& self.current_error matches Some(error) ==> error.serial == self.errors_reported
    }

    /// Tells whether the serial numbers of the state are in order.
    pub fn is_consistent(&self) -> (r: bool)
        ensures
            r == self.consistent(),
    {
        let station_in_order = match &self.current_station {
            Some(station) => station.serial == self.stations_selected,
            None => true,
        };
        let error_in_order = match &self.current_error {
            Some(error) => error.serial == self.errors_reported,
            None => true,
        };
        station_in_order && error_in_order
    }

    /// What a message from the player's log makes of the state: a station
    /// that was not found is noted by its index, and any other error
    /// becomes the current error, as a new report.
    pub open spec fn logged(self, message: LogMessage) -> PlayerState {
        match message {
            LogMessage::Error(PlayerError::StationNotFound { index }) => PlayerState {
                station_not_found: Some(index),
                ..self
            },
            LogMessage::Error(PlayerError::Other { text }) => PlayerState {
                current_error: Some(
                    SharedError { serial: next_serial(self.errors_reported), text },
                ),
                errors_reported: next_serial(self.errors_reported),
                ..self
            },
        }
    }

    /// Takes a message from the player's log into the state. An error that
    /// becomes the current error is a report of its own: it is unequal to
    /// the error that the state held before.
    pub fn handle_log_message(self, message: LogMessage) -> (r: Self)
        requires
            self.consistent(),
        ensures
            r == self.logged(message),
            r.consistent(),
            message matches LogMessage::Error(PlayerError::Other { .. }) ==> {
                &&& r.current_error matches Some(error)
                &&& self.current_error matches Some(held) ==> error.serial != held.serial
            },
    {
        let mut state = self;
        match message {
            LogMessage::Error(error) => {
                match error {
                    PlayerError::StationNotFound { index } => {
                        state.station_not_found = Some(index);
                    },
                    PlayerError::Other { text } => {
                        let serial = state.errors_reported.wrapping_add(1);
                        state.errors_reported = serial;
                        state.current_error = Some(SharedError { serial, text });
                    },
                }
                state
            },
        }
    }

    /// The state with another temperature.
    pub fn with_new_temperature(self, temperature: Temperature) -> (r: Self)
        ensures
            r == (PlayerState { temperature, ..self }),
            self.consistent() ==> r.consistent(),
    {
        let mut state = self;
        state.temperature = temperature;
        state
    }

    /// Whether `after` is what a change makes of the state. Each part that
    /// the change names takes its new value, and each other part stays as it
    /// is, with one exception: where a station is selected, the note of a
    /// station not found and the current error are dropped, and the station
    /// gets the next serial number.
    pub open spec fn applied(self, diff: PlayerStateDiff, after: PlayerState) -> bool {
        let selected = diff.current_station is ChangedToSome;
        let serial = if selected {
            next_serial(self.stations_selected)
        } else {
            self.stations_selected
        };
        &&& after.pipeline_state == match diff.pipeline_state {
            Some(pipeline_state) => pipeline_state,
            None => self.pipeline_state,
        }
        &&& station_updated(self.current_station, serial, diff.current_station, after.current_station)
        &&& after.current_track_index == match diff.current_track_index {
            Some(index) => index,
            None => self.current_track_index,
        }
        &&& after.current_track_tags == match diff.current_track_tags {
            OptionDiff::NoChange => self.current_track_tags,
            OptionDiff::ChangedToNone => None,
            OptionDiff::ChangedToSome(tags) => Some(tags),
        }
        &&& after.volume == match diff.volume {
            Some(volume) => volume,
            None => self.volume,
        }
        &&& after.buffering == match diff.buffering {
            Some(buffering) => buffering,
            None => self.buffering,
        }
        &&& after.track_duration == match diff.track_duration {
            OptionDiff::NoChange => self.track_duration,
            OptionDiff::ChangedToNone => None,
            OptionDiff::ChangedToSome(duration) => Some(duration),
        }
        &&& after.track_position == match diff.track_position {
            OptionDiff::NoChange => self.track_position,
            OptionDiff::ChangedToNone => None,
            OptionDiff::ChangedToSome(position) => Some(position),
        }
        &&& after.ping_times == match diff.ping_times {
            Some(ping_times) => ping_times,
            None => self.ping_times,
        }
        &&& after.station_not_found == if selected {
            None
        } else {
            self.station_not_found
        }
        &&& after.current_error == if selected {
            None
        } else {
            self.current_error
        }
        &&& after.temperature == self.temperature
        &&& after.stations_selected == serial
        &&& after.errors_reported == self.errors_reported
    }

    /// Takes a change of the player's state into the state. A station that
    /// is selected is a selection of its own: its serial number is not that
    /// of the station that the state held before.
    pub fn apply_diff(self, diff: PlayerStateDiff) -> (r: Self)
        requires
            self.consistent(),
        ensures
            self.applied(diff, r),
            r.consistent(),
            diff.current_station is ChangedToSome ==> r.station_not_found is None
                && r.current_error is None,
            diff.current_station is ChangedToSome ==> {
                &&& r.current_station matches Some(station)
                &&& self.current_station matches Some(held) ==> station.serial != held.serial
            },
            diff.current_station is NoChange ==> r.current_station == self.current_station,
    {
        let mut state = self;
        if let OptionDiff::ChangedToSome(_) = &diff.current_station {
            state.station_not_found = None;
            state.current_error = None;
            state.stations_selected = state.stations_selected.wrapping_add(1);
        }
        update_value(&mut state.pipeline_state, diff.pipeline_state);
        update_option_arc(&mut state.current_station, state.stations_selected, diff.current_station);
        update_value(&mut state.current_track_index, diff.current_track_index);
        update_option(&mut state.current_track_tags, diff.current_track_tags);
        update_value(&mut state.volume, diff.volume);
        update_value(&mut state.buffering, diff.buffering);
        update_option(&mut state.track_duration, diff.track_duration);
        update_option(&mut state.track_position, diff.track_position);
        update_value(&mut state.ping_times, diff.ping_times);
        state
    }
}

impl Default for PlayerState {
    fn default() -> (r: Self)
        ensures
            r == PlayerState::initial(),
            r.consistent(),
    {
        PlayerState {
            pipeline_state: PipelineState::Null,
            current_station: None,
            current_track_index: 0,
            current_track_tags: None,
            volume: -1,
            buffering: 0,
            track_duration: None,
            track_position: None,
            ping_times: PingTimes::NoPings,
            station_not_found: None,
            current_error: None,
            temperature: Temperature(255),
            stations_selected: 0,
            errors_reported: 0,
        }
    }
}

/// A change that names nothing leaves the state as it is.
pub proof fn lemma_empty_diff_changes_nothing(state: PlayerState, after: PlayerState)
    requires
        state.applied(
            PlayerStateDiff {
                pipeline_state: None,
                current_station: OptionDiff::NoChange,
                current_track_index: None,
                current_track_tags: OptionDiff::NoChange,
                volume: None,
                buffering: None,
                track_duration: OptionDiff::NoChange,
                track_position: OptionDiff::NoChange,
                ping_times: None,
            },
            after,
        ),
    ensures
        after == state,
{
}

/// A change that selects a station drops the note of a station not found
/// and the current error, whatever else it names.
pub proof fn lemma_selecting_a_station_clears_errors(
    state: PlayerState,
    diff: PlayerStateDiff,
    after: PlayerState,
)
    requires
        state.applied(diff, after),
        diff.current_station is ChangedToSome,
    ensures
        after.station_not_found is None,
        after.current_error is None,
{
}

/// An error that is taken into a state whose numbers are in order is a
/// report of its own: it does not compare equal to the error that the
/// state held, and the numbers stay in order.
pub proof fn lemma_logged_error_is_new(state: PlayerState, held: SharedError, text: String)
    requires
        state.consistent(),
        state.current_error == Some(held),
    ensures
        ({
            let after = state.logged(LogMessage::Error(PlayerError::Other { text }));
            &&& after.consistent()
            &&& after.current_error matches Some(error)
            &&& error.text == text
            &&& error.serial != held.serial
        }),
{
}

/// A station that is selected in a state whose numbers are in order is a
/// selection of its own: its serial number is not that of the station that
/// the state held, and the numbers stay in order.
pub proof fn lemma_selected_station_is_new(
    state: PlayerState,
    held: SharedStation,
    diff: PlayerStateDiff,
    after: PlayerState,
)
    requires
        state.consistent(),
        state.current_station == Some(held),
        diff.current_station is ChangedToSome,
        state.applied(diff, after),
    ensures
        after.consistent(),
        after.current_station matches Some(station) && station.serial != held.serial,
{
}

} // verus!
