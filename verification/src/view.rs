//! The screen of the radio: which widget shows what of the player's state,
//! and where.

use vstd::prelude::*;
use vstd::string::StrSliceExecFns;

use crate::clock::{
    date_text, is_time_of_day, local_date, local_time, DateFormatter, TimeFormatter,
};
use crate::combinators::{
    Either, EitherWidget, IntoEither, Lens, LensWidget, Scope, ScopeWidget, WidgetExt, WidgetGroup,
};
use crate::display::TextOp;
use crate::text::{right_aligned, signed_decimal, DisplayText};
use crate::formats::{
    Caption, PingAndTemperatureDisplay, PingDisplay, StationNotFoundMessage, StationTags,
    TrackPositionDisplay,
};
use crate::geometry::{CursorPosition, Line, Lines, Segment};
use crate::messages::{PipelineState, Station, StationType, Track, TrackTags};
use crate::state::{PlayerState, SharedStation};
use crate::widgets::{
    FixedLabel, FixedLabelView, Generate, GeneratedLabel, GeneratedLabelView, Label, LabelView,
    Marquee, ScrollingLabel, TextAlignment, Widget, WidgetEvent,
};
use crate::SCREEN_WIDTH;

verus! {

/// Number of ticks for which the volume is shown after it has changed,
/// whatever the player is doing.
pub const VOLUME_TICKS: usize = 2;

/// Number of ticks for which a station that was just selected is shown by
/// its index and title alone.
pub const NEW_STATION_TICKS: usize = 2;

/// Number of cells of the top row that are left of the volume.
pub const STATUS_WIDTH: u8 = 13;

/// Number of cells that the word before the volume takes.
pub const VOLUME_WORD_WIDTH: u8 = 4;

/// Number of cells that the time of day takes.
pub const CLOCK_WIDTH: u8 = 5;

/// What the widgets of a station are shown: the station that is selected,
/// and the state of the player.
pub struct Playing {
    pub station: SharedStation,
    pub state: PlayerState,
}

impl Clone for Playing {
    fn clone(&self) -> (r: Self)
        ensures
            r == *self,
    {
        Playing { station: self.station.clone(), state: self.state.clone() }
    }
}

/// What the widgets of a title that fits a row are shown: the title, and
/// how full the buffer is.
pub struct TitleAndBuffer {
    pub title: Caption,
    pub buffering: u8,
}

impl Clone for TitleAndBuffer {
    fn clone(&self) -> (r: Self)
        ensures
            r == *self,
    {
        TitleAndBuffer { title: self.title.clone(), buffering: self.buffering }
    }
}

/// The ticks that are left after one more has passed.
pub open spec fn counted_down(ticks: usize) -> usize {
    if ticks > 0 {
        (ticks - 1) as usize
    } else {
        0
    }
}

/// A tick takes one off the ticks that are left, down to none.
pub fn count_down<In>(ticks: &usize, event: &WidgetEvent, data: &In) -> (r: usize)
    ensures
        r == counted_down(*ticks),
{
    match event {
        WidgetEvent::Tick(_) => if *ticks > 0 {
            *ticks - 1
        } else {
            0
        },
    }
}

/// The ticks for which the volume is still shown, after a change of volume
/// or of what the player is doing: a new volume is shown for
/// `VOLUME_TICKS` ticks, but no longer once the player does something else.
pub open spec fn volume_ticks_updated(
    ticks: usize,
    old_data: (i32, PipelineState),
    data: (i32, PipelineState),
) -> usize {
    if old_data.1 != data.1 {
        0
    } else if old_data.0 != data.0 {
        VOLUME_TICKS
    } else {
        ticks
    }
}

/// The ticks for which the volume is still shown, after a change of volume
/// or of what the player is doing.
pub fn volume_ticks_after_update(
    ticks: &usize,
    old_data: &(i32, PipelineState),
    data: &(i32, PipelineState),
) -> (r: usize)
    ensures
        r == volume_ticks_updated(*ticks, *old_data, *data),
{
    let mut ticks_remaining = *ticks;
    if old_data.0 != data.0 {
        ticks_remaining = VOLUME_TICKS;
    }
    if old_data.1 != data.1 {
        ticks_remaining = 0;
    }
    ticks_remaining
}

/// What the field at the top right shows: the volume while the player plays
/// or while ticks are left after a change of volume, and else what the
/// player is doing.
pub open spec fn volume_or_state(ticks: usize, data: (i32, PipelineState)) -> Either<
    i32,
    PipelineState,
> {
    if ticks > 0 || data.1 == PipelineState::Playing {
        Either::A(data.0)
    } else {
        Either::B(data.1)
    }
}

/// What the field at the top right shows.
pub fn volume_or_pipeline_state(ticks: &usize, data: &(i32, PipelineState)) -> (r: Either<
    i32,
    PipelineState,
>)
    ensures
        r == volume_or_state(*ticks, *data),
{
    if *ticks > 0 {
        Either::A(data.0)
    } else if let PipelineState::Playing = data.1 {
        Either::A(data.0)
    } else {
        Either::B(data.1)
    }
}

/// The state of the field at the top right: the ticks for which the volume
/// is still shown whatever the player is doing.
pub struct VolumeScope {
    pub ticks: usize,
}

impl Scope for VolumeScope {
    type In = (i32, PipelineState);

    type Out = Either<i32, PipelineState>;

    open spec fn event_spec(
        &self,
        event: &WidgetEvent,
        data: &(i32, PipelineState),
        after: &Self,
    ) -> bool {
        after.ticks == counted_down(self.ticks)
    }

    open spec fn update_spec(
        &self,
        old_data: &(i32, PipelineState),
        data: &(i32, PipelineState),
        after: &Self,
    ) -> bool {
        after.ticks == volume_ticks_updated(self.ticks, *old_data, *data)
    }

    open spec fn reset_spec(&self, after: &Self) -> bool {
        after.ticks == 0
    }

    open spec fn data_spec(&self, data: &(i32, PipelineState), out: Either<i32, PipelineState>) -> bool {
        out == volume_or_state(self.ticks, *data)
    }

    fn event(&mut self, event: &WidgetEvent, data: &(i32, PipelineState)) {
        self.ticks = count_down(&self.ticks, event, data);
    }

    fn update(&mut self, old_data: &(i32, PipelineState), data: &(i32, PipelineState)) {
        self.ticks = volume_ticks_after_update(&self.ticks, old_data, data);
    }

    fn reset(&mut self) {
        self.ticks = 0;
    }

    fn data(&self, data: &(i32, PipelineState)) -> (out: Either<i32, PipelineState>) {
        volume_or_pipeline_state(&self.ticks, data)
    }
}

/// The field that shows the volume or what the player is doing: the word
/// `Vol` and the volume, or the state of the player, both flush right.
pub type VolumeView = ScopeWidget<
    (i32, PipelineState),
    EitherWidget<
        Either<i32, PipelineState>,
        WidgetGroup<i32, FixedLabel<i32, &'static str>, Label<i32>>,
        Label<PipelineState>,
    >,
    VolumeScope,
>;

/// The field that shows the volume or what the player is doing, in
/// `segment`: the word `Vol` in its first four cells and the volume in the
/// rest, or the state of the player in all of it.
pub fn volume_and_pipeline_state_view(segment: Segment) -> (r: VolumeView)
    requires
        segment.writable(),
        segment.position.column < SCREEN_WIDTH,
        segment.position.can_offset(VOLUME_WORD_WIDTH),
        segment.length >= VOLUME_WORD_WIDTH,
    ensures
        r.scope == (VolumeScope { ticks: 0 }),
        r.inner.a.0@ == (FixedLabelView {
            string: "Vol",
            segment: segment.head(VOLUME_WORD_WIDTH),
            should_paint: true,
        }),
        r.inner.a.1@ == LabelView::fresh(segment.tail(VOLUME_WORD_WIDTH), TextAlignment::Right),
        r.inner.b@ == LabelView::fresh(segment, TextAlignment::Right),
{
    let (s1, s2) = segment.split(VOLUME_WORD_WIDTH);
    let volume = FixedLabel::new("Vol", s1).group(Label::new(s2).align_right());
    let pipeline_state = Label::new(segment).align_right();
    EitherWidget::new(volume, pipeline_state).with_scope(VolumeScope { ticks: 0 })
}

/// The text of an optional string, or nothing where there is none.
pub fn caption_of(text: &Option<String>) -> (r: Caption)
    ensures
        r.text@ == match *text {
            Some(text) => text@,
            None => Seq::<char>::empty(),
        },
{
    match text {
        Some(text) => Caption { text: text.clone() },
        None => Caption { text: String::new() },
    }
}

/// One tag of the station that plays: what the track says of itself as it
/// plays, or else what the station says of the track.
pub open spec fn tag_or(tag: Option<String>, otherwise: Option<String>) -> Option<String> {
    if tag is Some {
        tag
    } else {
        otherwise
    }
}

/// The first of two optional strings that is there.
pub fn first_of(first: &Option<String>, second: &Option<String>) -> (r: Option<String>)
    ensures
        r == tag_or(*first, *second),
{
    match first {
        Some(_) => first.clone(),
        None => second.clone(),
    }
}

/// The track that plays, if the station has a track of that number.
pub open spec fn current_track(data: &Playing) -> Option<Track> {
    if data.state.current_track_index < data.station.station.tracks@.len() {
        Some(data.station.station.tracks@[data.state.current_track_index as int])
    } else {
        None
    }
}

/// What to add to the number of a track to show it: tracks are counted from
/// one, but an announcement at the start of the station is not counted.
pub open spec fn track_number_offset(station: &Station) -> int {
    if station.tracks@.len() > 0 && !station.tracks@[0].is_notification {
        1
    } else {
        0
    }
}

/// The number under which the track of index `index` is shown: the index
/// with the offset of the station, as far as a `usize` can hold it.
pub open spec fn track_number(station: &Station, index: usize) -> usize {
    if index + track_number_offset(station) > usize::MAX {
        usize::MAX
    } else {
        (index + track_number_offset(station)) as usize
    }
}

/// The number under which the track of index `index` is shown.
pub fn shown_track_number(station: &Station, index: usize) -> (r: usize)
    ensures
        r == track_number(station, index),
{
    let offset: usize = if station.tracks.len() > 0 && !station.tracks[0].is_notification {
        1
    } else {
        0
    };
    if index > usize::MAX - offset {
        usize::MAX
    } else {
        index + offset
    }
}

/// Whether the temperature is shown after the ping times may have changed:
/// it takes turns with the ping each time they change.
pub open spec fn temperature_shown_updated(shown: bool, old_data: &Playing, data: &Playing) -> bool {
    if old_data.state.ping_times.same(&data.state.ping_times) {
        shown
    } else {
        !shown
    }
}

/// The flag that says whether the temperature is shown stays as it is when
/// time passes.
pub fn temperature_shown_after_event(shown: &bool, event: &WidgetEvent, data: &Playing) -> (r:
    bool)
    ensures
        r == *shown,
{
    *shown
}

/// The flag that says whether the temperature is shown changes over each
/// time the ping times change.
pub fn temperature_shown_after_update(shown: &bool, old_data: &Playing, data: &Playing) -> (r:
    bool)
    ensures
        r == temperature_shown_updated(*shown, old_data, data),
{
    if old_data.state.ping_times != data.state.ping_times {
        !*shown
    } else {
        *shown
    }
}

/// What the status field shows of a station that is a list of addresses.
pub open spec fn ping_and_temperature(shown: bool, data: &Playing) -> PingAndTemperatureDisplay {
    PingAndTemperatureDisplay {
        ping_times: data.state.ping_times,
        temperature: data.state.temperature,
        display_temperature: shown,
    }
}

/// What the status field shows of a station that is a list of addresses.
pub fn ping_and_temperature_of(shown: &bool, data: &Playing) -> (r: PingAndTemperatureDisplay)
    ensures
        r == ping_and_temperature(*shown, data),
{
    PingAndTemperatureDisplay {
        ping_times: data.state.ping_times.clone(),
        temperature: data.state.temperature,
        display_temperature: *shown,
    }
}

/// The state of the status field of a list of addresses: whether it is the
/// turn of the temperature.
pub struct TemperatureTurns {
    pub shown: bool,
}

impl Scope for TemperatureTurns {
    type In = Playing;

    type Out = PingAndTemperatureDisplay;

    open spec fn event_spec(&self, event: &WidgetEvent, data: &Playing, after: &Self) -> bool {
        after.shown == self.shown
    }

    open spec fn update_spec(&self, old_data: &Playing, data: &Playing, after: &Self) -> bool {
        after.shown == temperature_shown_updated(self.shown, old_data, data)
    }

    open spec fn reset_spec(&self, after: &Self) -> bool {
        !after.shown
    }

    open spec fn data_spec(&self, data: &Playing, out: PingAndTemperatureDisplay) -> bool {
        out == ping_and_temperature(self.shown, data)
    }

    fn event(&mut self, event: &WidgetEvent, data: &Playing) {
        self.shown = temperature_shown_after_event(&self.shown, event, data);
    }

    fn update(&mut self, old_data: &Playing, data: &Playing) {
        self.shown = temperature_shown_after_update(&self.shown, old_data, data);
    }

    fn reset(&mut self) {
        self.shown = false;
    }

    fn data(&self, data: &Playing) -> (out: PingAndTemperatureDisplay) {
        ping_and_temperature_of(&self.shown, data)
    }
}

/// What the status field shows of any other station.
pub open spec fn track_position(data: &Playing) -> TrackPositionDisplay {
    TrackPositionDisplay {
        track_index: track_number(&*data.station.station, data.state.current_track_index),
        track_position: data.state.track_position,
        track_duration: data.state.track_duration,
    }
}

/// What the status field shows of any other station.
pub fn track_position_of(data: &Playing) -> (r: TrackPositionDisplay)
    ensures
        r == track_position(data),
{
    TrackPositionDisplay {
        track_index: shown_track_number(&data.station.station, data.state.current_track_index),
        track_position: data.state.track_position,
        track_duration: data.state.track_duration,
    }
}

/// The lens that is `track_position_of`.
pub struct TrackPositionOf;

impl Lens<Playing> for TrackPositionOf {
    type Out = TrackPositionDisplay;

    open spec fn gets(&self, data: &Playing, out: TrackPositionDisplay) -> bool {
        out == track_position(data)
    }

    fn get(&self, data: &Playing) -> (out: TrackPositionDisplay) {
        track_position_of(data)
    }
}

/// Which of the two the status field shows: pings and temperature for a
/// list of addresses, the place in the track for any other station.
pub open spec fn status_variant(data: &Playing) -> Either<Playing, Playing> {
    if data.station.station.source_type == StationType::UrlList {
        Either::A(*data)
    } else {
        Either::B(*data)
    }
}

/// Which of the two the status field shows.
pub fn ping_or_track_position(data: &Playing) -> (r: Either<Playing, Playing>)
    ensures
        r == status_variant(data),
{
    if let StationType::UrlList = data.station.station.source_type {
        Either::A(data.clone())
    } else {
        Either::B(data.clone())
    }
}

/// The lens that is `ping_or_track_position`.
pub struct PingOrTrackPosition;

impl Lens<Playing> for PingOrTrackPosition {
    type Out = Either<Playing, Playing>;

    open spec fn gets(&self, data: &Playing, out: Either<Playing, Playing>) -> bool {
        out == status_variant(data)
    }

    fn get(&self, data: &Playing) -> (out: Either<Playing, Playing>) {
        ping_or_track_position(data)
    }
}

/// The volume and what the player is doing, while a station is selected.
pub fn volume_and_pipeline_state_of_station(data: &Playing) -> (r: (i32, PipelineState))
    ensures
        r == (data.state.volume, data.state.pipeline_state),
{
    (data.state.volume, data.state.pipeline_state)
}

/// The lens that is `volume_and_pipeline_state_of_station`.
pub struct VolumeOfStation;

impl Lens<Playing> for VolumeOfStation {
    type Out = (i32, PipelineState);

    open spec fn gets(&self, data: &Playing, out: (i32, PipelineState)) -> bool {
        out == (data.state.volume, data.state.pipeline_state)
    }

    fn get(&self, data: &Playing) -> (out: (i32, PipelineState)) {
        volume_and_pipeline_state_of_station(data)
    }
}

/// The number of the track that is shown with a list of addresses: none for
/// the first track, and none where the station has no tracks.
pub open spec fn displayed_track_number(station: &Station, index: usize) -> Option<usize> {
    if station.tracks@.len() > 0 && track_number(station, index) > 1 {
        Some(track_number(station, index))
    } else {
        None
    }
}

/// The number of the track that is shown with a list of addresses.
pub fn displayed_url_list_track_index(station: &Station, state: &PlayerState) -> (r: Option<
    usize,
>)
    ensures
        r == displayed_track_number(station, state.current_track_index),
{
    if station.tracks.len() == 0 {
        return None;
    }
    let track_index = shown_track_number(station, state.current_track_index);
    if track_index > 1 {
        Some(track_index)
    } else {
        None
    }
}

/// What the track says of itself as it plays, if it says so.
pub open spec fn played_tags(data: &Playing) -> TrackTags {
    match data.state.current_track_tags {
        Some(tags) => tags,
        None => TrackTags { title: None, organisation: None, artist: None, album: None },
    }
}

/// What the station says of the track that plays, if there is such a track.
pub open spec fn listed_track(data: &Playing) -> Track {
    match current_track(data) {
        Some(track) => track,
        None => Track { title: None, album: None, artist: None, is_notification: false },
    }
}

/// The tags that are shown of the station and of the track that plays: what
/// the track says of itself as it plays comes before what the station says
/// of it.
pub open spec fn station_tags(data: &Playing) -> StationTags {
    let station_title = tag_or(played_tags(data).organisation, data.station.station.title);
    let artist = tag_or(played_tags(data).artist, listed_track(data).artist);
    let album = tag_or(played_tags(data).album, listed_track(data).album);
    match data.station.station.source_type {
        StationType::UrlList => StationTags::UrlList {
            current_track_index: displayed_track_number(
                &*data.station.station,
                data.state.current_track_index,
            ),
            station_title,
        },
        StationType::Samba => StationTags::Samba { station_title, artist, album },
        StationType::CD => StationTags::CD { artist, album },
        StationType::Usb => StationTags::Usb { artist, album },
    }
}

/// The tags that are shown of the station and of the track that plays.
pub fn station_tags_of(data: &Playing) -> (r: StationTags)
    ensures
        r == station_tags(data),
{
    let station = &data.station.station;
    let state = &data.state;
    let none: Option<String> = None;
    let (listed_artist, listed_album) = if state.current_track_index < station.tracks.len() {
        let track = &station.tracks[state.current_track_index];
        (track.artist.clone(), track.album.clone())
    } else {
        (None, None)
    };
    let (station_title, artist, album) = match &state.current_track_tags {
        Some(tags) => (
            first_of(&tags.organisation, &station.title),
            first_of(&tags.artist, &listed_artist),
            first_of(&tags.album, &listed_album),
        ),
        None => (
            first_of(&none, &station.title),
            first_of(&none, &listed_artist),
            first_of(&none, &listed_album),
        ),
    };
    match station.source_type {
        StationType::UrlList => StationTags::UrlList {
            current_track_index: displayed_url_list_track_index(station, state),
            station_title,
        },
        StationType::Samba => StationTags::Samba { station_title, artist, album },
        StationType::CD => StationTags::CD { artist, album },
        StationType::Usb => StationTags::Usb { artist, album },
    }
}

/// The lens that is `station_tags_of`.
pub struct StationTagsOf;

impl Lens<Playing> for StationTagsOf {
    type Out = StationTags;

    open spec fn gets(&self, data: &Playing, out: StationTags) -> bool {
        out == station_tags(data)
    }

    fn get(&self, data: &Playing) -> (out: StationTags) {
        station_tags_of(data)
    }
}

/// The title of the track that plays: what the track says as it plays, or
/// else what the station says, or else nothing.
pub open spec fn track_title(data: &Playing) -> Seq<char> {
    match tag_or(played_tags(data).title, listed_track(data).title) {
        Some(title) => title@,
        None => Seq::empty(),
    }
}

/// Whether `out` is what the lower half of the screen shows. A title of a
/// list of addresses that fits a row has a row, and the buffer has the row
/// below. Any other title has both rows.
pub open spec fn is_title_shown(data: &Playing, out: Either<TitleAndBuffer, Caption>) -> bool {
    let fits = data.station.station.source_type == StationType::UrlList && track_title(data).len()
        <= SCREEN_WIDTH;
    match out {
        Either::A(pair) => fits && pair.title.text@ == track_title(data) && pair.buffering
            == data.state.buffering,
        Either::B(title) => !fits && title.text@ == track_title(data),
    }
}

/// What the lower half of the screen shows.
pub fn track_title_of(data: &Playing) -> (r: Either<TitleAndBuffer, Caption>)
    ensures
        is_title_shown(data, r),
{
    let station = &data.station.station;
    let state = &data.state;
    let none: Option<String> = None;
    let listed_title = if state.current_track_index < station.tracks.len() {
        station.tracks[state.current_track_index].title.clone()
    } else {
        None
    };
    let title = match &state.current_track_tags {
        Some(tags) => caption_of(&first_of(&tags.title, &listed_title)),
        None => caption_of(&first_of(&none, &listed_title)),
    };
    if let StationType::UrlList = station.source_type {
        if title.text.as_str().unicode_len() > 20 {
            Either::B(title)
        } else {
            Either::A(TitleAndBuffer { title, buffering: state.buffering })
        }
    } else {
        Either::B(title)
    }
}

/// The lens that is `track_title_of`.
pub struct TrackTitleOf;

impl Lens<Playing> for TrackTitleOf {
    type Out = Either<TitleAndBuffer, Caption>;

    open spec fn gets(&self, data: &Playing, out: Either<TitleAndBuffer, Caption>) -> bool {
        is_title_shown(data, out)
    }

    fn get(&self, data: &Playing) -> (out: Either<TitleAndBuffer, Caption>) {
        track_title_of(data)
    }
}

/// The title of a pair of title and buffer.
pub fn title_of(pair: &TitleAndBuffer) -> (r: Caption)
    ensures
        r == pair.title,
{
    pair.title.clone()
}

/// The lens that is `title_of`.
pub struct TitleOf;

impl Lens<TitleAndBuffer> for TitleOf {
    type Out = Caption;

    open spec fn gets(&self, data: &TitleAndBuffer, out: Caption) -> bool {
        out == data.title
    }

    fn get(&self, data: &TitleAndBuffer) -> (out: Caption) {
        title_of(data)
    }
}

/// The buffer of a pair of title and buffer.
pub fn buffering_of(pair: &TitleAndBuffer) -> (r: u8)
    ensures
        r == pair.buffering,
{
    pair.buffering
}

/// The lens that is `buffering_of`.
pub struct BufferingOf;

impl Lens<TitleAndBuffer> for BufferingOf {
    type Out = u8;

    open spec fn gets(&self, data: &TitleAndBuffer, out: u8) -> bool {
        out == data.buffering
    }

    fn get(&self, data: &TitleAndBuffer) -> (out: u8) {
        buffering_of(data)
    }
}

/// The status field of a station: pings and temperature, or the place in
/// the track.
pub type StatusView = LensWidget<
    Playing,
    EitherWidget<
        Either<Playing, Playing>,
        ScopeWidget<Playing, Label<PingAndTemperatureDisplay>, TemperatureTurns>,
        LensWidget<Playing, Label<TrackPositionDisplay>, TrackPositionOf>,
    >,
    PingOrTrackPosition,
>;

/// The lower half of the screen of a station: the title of the track above
/// the buffer, or the title alone.
pub type TitleView = LensWidget<
    Playing,
    EitherWidget<
        Either<TitleAndBuffer, Caption>,
        WidgetGroup<
            TitleAndBuffer,
            LensWidget<TitleAndBuffer, ScrollingLabel<Caption>, TitleOf>,
            LensWidget<TitleAndBuffer, Label<u8>, BufferingOf>,
        >,
        ScrollingLabel<Caption>,
    >,
    TrackTitleOf,
>;

/// The screen while a station is selected.
pub type StationView = WidgetGroup<
    Playing,
    WidgetGroup<
        Playing,
        WidgetGroup<Playing, StatusView, LensWidget<Playing, VolumeView, VolumeOfStation>>,
        LensWidget<Playing, ScrollingLabel<StationTags>, StationTagsOf>,
    >,
    TitleView,
>;

/// The strip of `length` cells that starts in `row` at `column`.
pub open spec fn strip(row: u8, column: u8, length: u8) -> Segment {
    Segment { position: CursorPosition { row, column }, length }
}

/// The screen while a station is selected: the status and the volume in the
/// first row, the tags of the station in the second, the title of the track
/// and the buffer below. Every widget is new and has to be painted.
pub fn station_view() -> (r: StationView)
    ensures
        r.0.0.0.inner.a.scope == (TemperatureTurns { shown: false }),
        r.0.0.0.inner.a.inner@ == LabelView::fresh(strip(0, 0, 13), TextAlignment::Left),
        r.0.0.0.inner.b.inner@ == LabelView::fresh(strip(0, 0, 13), TextAlignment::Left),
        r.0.0.1.inner.scope == (VolumeScope { ticks: 0 }),
        r.0.0.1.inner.inner.a.0@ == (FixedLabelView {
            string: "Vol",
            segment: strip(0, 13, 4),
            should_paint: true,
        }),
        r.0.0.1.inner.inner.a.1@ == LabelView::fresh(strip(0, 17, 3), TextAlignment::Right),
        r.0.0.1.inner.inner.b@ == LabelView::fresh(strip(0, 13, 7), TextAlignment::Right),
        r.0.1.inner@ == Marquee::fresh(strip(1, 0, 20)),
        r.1.inner.a.0.inner@ == Marquee::fresh(strip(2, 0, 20)),
        r.1.inner.a.1.inner@ == LabelView::fresh(strip(3, 0, 20), TextAlignment::Left),
        r.1.inner.b@ == Marquee::fresh(strip(2, 0, 40)),
{
    let (ping_segment, volume_and_pipeline_state_segment) = Line(0).split(STATUS_WIDTH);
    let ping_and_temperature = Label::new(ping_segment).with_scope(
        TemperatureTurns { shown: false },
    );
    let track_position = Label::new(ping_segment).behind(TrackPositionOf);
    let ping_or_track_position = EitherWidget::new(ping_and_temperature, track_position).behind(
        PingOrTrackPosition,
    );
    let volume_and_pipeline_state = volume_and_pipeline_state_view(
        volume_and_pipeline_state_segment,
    ).behind(VolumeOfStation);
    let station_tags = ScrollingLabel::new(Segment::from(Line(1))).behind(StationTagsOf);
    let track_metadata = ScrollingLabel::new(Segment::from(Line(2))).behind(TitleOf);
    let buffer = Label::new(Segment::from(Line(3))).behind(BufferingOf);
    let track_title = EitherWidget::new(
        track_metadata.group(buffer),
        ScrollingLabel::new(Lines(2, 3).segment()),
    ).behind(TrackTitleOf);
    ping_or_track_position.group(volume_and_pipeline_state).group(station_tags).group(track_title)
}

/// The message that a station was not found, if one was not.
pub open spec fn station_not_found(state: &PlayerState) -> Option<StationNotFoundMessage> {
    match state.station_not_found {
        Some(index) => Some(StationNotFoundMessage(index)),
        None => None,
    }
}

/// The message that a station was not found, if one was not.
pub fn station_not_found_of(state: &PlayerState) -> (r: Option<StationNotFoundMessage>)
    ensures
        r == station_not_found(state),
{
    match &state.station_not_found {
        Some(index) => Some(StationNotFoundMessage(index.clone())),
        None => None,
    }
}

/// The lens that is `station_not_found_of`.
pub struct StationNotFoundOf;

impl Lens<PlayerState> for StationNotFoundOf {
    type Out = Option<StationNotFoundMessage>;

    open spec fn gets(&self, data: &PlayerState, out: Option<StationNotFoundMessage>) -> bool {
        out == station_not_found(data)
    }

    fn get(&self, data: &PlayerState) -> (out: Option<StationNotFoundMessage>) {
        station_not_found_of(data)
    }
}

/// The volume and what the player is doing.
pub fn volume_and_pipeline_state_of(state: &PlayerState) -> (r: (i32, PipelineState))
    ensures
        r == (state.volume, state.pipeline_state),
{
    (state.volume, state.pipeline_state)
}

/// The lens that is `volume_and_pipeline_state_of`.
pub struct VolumeOf;

impl Lens<PlayerState> for VolumeOf {
    type Out = (i32, PipelineState);

    open spec fn gets(&self, data: &PlayerState, out: (i32, PipelineState)) -> bool {
        out == (data.volume, data.pipeline_state)
    }

    fn get(&self, data: &PlayerState) -> (out: (i32, PipelineState)) {
        volume_and_pipeline_state_of(data)
    }
}

/// The ping times.
pub fn ping_of(state: &PlayerState) -> (r: PingDisplay)
    ensures
        r == PingDisplay(state.ping_times),
{
    PingDisplay(state.ping_times.clone())
}

/// The lens that is `ping_of`.
pub struct PingOf;

impl Lens<PlayerState> for PingOf {
    type Out = PingDisplay;

    open spec fn gets(&self, data: &PlayerState, out: PingDisplay) -> bool {
        out == PingDisplay(data.ping_times)
    }

    fn get(&self, data: &PlayerState) -> (out: PingDisplay) {
        ping_of(data)
    }
}

/// What makes the date of today, by the clock of the machine: a date that
/// can be written out.
pub struct LocalDate;

impl Generate for LocalDate {
    type Value = DateFormatter;

    open spec fn generates(&self, value: DateFormatter) -> bool {
        date_text(value.days) is Some
    }

    fn generate(&self) -> (value: DateFormatter) {
        local_date()
    }
}

/// What makes the time of day, by the clock of the machine: a time that is
/// shown as hour and minute.
pub struct LocalTime;

impl Generate for LocalTime {
    type Value = TimeFormatter;

    open spec fn generates(&self, value: TimeFormatter) -> bool {
        is_time_of_day(value.seconds, value.nanoseconds)
    }

    fn generate(&self) -> (value: TimeFormatter) {
        local_time()
    }
}

/// The field at the top left while no station is selected: the message that
/// a station was not found, or the address of the device.
pub type NotFoundView = LensWidget<
    PlayerState,
    EitherWidget<
        Option<StationNotFoundMessage>,
        ScrollingLabel<StationNotFoundMessage>,
        FixedLabel<(), String>,
    >,
    StationNotFoundOf,
>;

/// The screen while no station is selected.
pub type NoStationView = WidgetGroup<
    PlayerState,
    WidgetGroup<
        PlayerState,
        WidgetGroup<
            PlayerState,
            WidgetGroup<PlayerState, NotFoundView, LensWidget<PlayerState, VolumeView, VolumeOf>>,
            LensWidget<PlayerState, Label<PingDisplay>, PingOf>,
        >,
        GeneratedLabel<DateFormatter, LocalDate, PlayerState>,
    >,
    GeneratedLabel<TimeFormatter, LocalTime, PlayerState>,
>;

/// The screen while no station is selected: in the first row the address of
/// the device, or the message that a station was not found, and the volume;
/// below, the ping times, the date and the time. Every widget is new and has
/// to be painted.
pub fn no_station(ip_address: String) -> (r: NoStationView)
    ensures
        r.0.0.0.0.inner.a@ == Marquee::fresh(strip(0, 0, 13)),
        r.0.0.0.0.inner.b@ == (FixedLabelView {
            string: ip_address,
            segment: strip(0, 0, 13),
            should_paint: true,
        }),
        r.0.0.0.1.inner.scope == (VolumeScope { ticks: 0 }),
        r.0.0.0.1.inner.inner.a.0@ == (FixedLabelView {
            string: "Vol",
            segment: strip(0, 13, 4),
            should_paint: true,
        }),
        r.0.0.0.1.inner.inner.a.1@ == LabelView::fresh(strip(0, 17, 3), TextAlignment::Right),
        r.0.0.0.1.inner.inner.b@ == LabelView::fresh(strip(0, 13, 7), TextAlignment::Right),
        r.0.0.1.inner@ == LabelView::fresh(strip(1, 0, 20), TextAlignment::Left),
        r.0.1@ == (GeneratedLabelView::<DateFormatter, LocalDate> {
            segment: strip(2, 0, 20),
            generator: LocalDate,
            previous_value: None,
        }),
        r.1@ == (GeneratedLabelView::<TimeFormatter, LocalTime> {
            segment: strip(3, 0, 5),
            generator: LocalTime,
            previous_value: None,
        }),
{
    let (station_not_found_segment, volume_and_pipeline_state_segment) = Line(0).split(
        STATUS_WIDTH,
    );
    let local_ip = FixedLabel::new(ip_address, station_not_found_segment);
    let station_not_found = EitherWidget::new(
        ScrollingLabel::new(station_not_found_segment),
        local_ip,
    ).behind(StationNotFoundOf);
    let volume_and_pipeline_state = volume_and_pipeline_state_view(
        volume_and_pipeline_state_segment,
    ).behind(VolumeOf);
    let ping = Label::new(Segment::from(Line(1))).behind(PingOf);
    let clock_date = GeneratedLabel::with_generator(Segment::from(Line(2)), LocalDate);
    let (clock_time_segment, _cpu_temperature_segment) = Line(3).split(CLOCK_WIDTH);
    let clock_time = GeneratedLabel::with_generator(clock_time_segment, LocalTime);
    station_not_found.group(volume_and_pipeline_state).group(ping).group(clock_date).group(
        clock_time,
    )
}

/// The index of a station, or nothing where it has none.
pub fn station_index_of(station: &SharedStation) -> (r: Caption)
    ensures
        r.text@ == match station.station.index {
            Some(index) => index@,
            None => Seq::<char>::empty(),
        },
{
    caption_of(&station.station.index)
}

/// The lens that is `station_index_of`.
pub struct StationIndexOf;

impl Lens<SharedStation> for StationIndexOf {
    type Out = Caption;

    open spec fn gets(&self, data: &SharedStation, out: Caption) -> bool {
        out.text@ == match data.station.index {
            Some(index) => index@,
            None => Seq::<char>::empty(),
        }
    }

    fn get(&self, data: &SharedStation) -> (out: Caption) {
        station_index_of(data)
    }
}

/// The title of a station, or nothing where it has none.
pub fn station_title_of(station: &SharedStation) -> (r: Caption)
    ensures
        r.text@ == match station.station.title {
            Some(title) => title@,
            None => Seq::<char>::empty(),
        },
{
    caption_of(&station.station.title)
}

/// The lens that is `station_title_of`.
pub struct StationTitleOf;

impl Lens<SharedStation> for StationTitleOf {
    type Out = Caption;

    open spec fn gets(&self, data: &SharedStation, out: Caption) -> bool {
        out.text@ == match data.station.title {
            Some(title) => title@,
            None => Seq::<char>::empty(),
        }
    }

    fn get(&self, data: &SharedStation) -> (out: Caption) {
        station_title_of(data)
    }
}

/// The ticks for which a station is still shown by its index and title
/// alone: `NEW_STATION_TICKS` from the moment at which it is selected.
pub open spec fn new_station_ticks_updated(ticks: usize, old_data: &Playing, data: &Playing) -> usize {
    if old_data.station.serial != data.station.serial {
        NEW_STATION_TICKS
    } else {
        ticks
    }
}

/// The ticks for which a station is still shown by its index and title
/// alone.
pub fn new_station_ticks_after_update(ticks: &usize, old_data: &Playing, data: &Playing) -> (r:
    usize)
    ensures
        r == new_station_ticks_updated(*ticks, old_data, data),
{
    if old_data.station.serial != data.station.serial {
        NEW_STATION_TICKS
    } else {
        *ticks
    }
}

/// What is shown of a station: the station alone while ticks are left since
/// it was selected, and then the station with the state of the player.
pub open spec fn new_station_or(ticks: usize, data: &Playing) -> Either<SharedStation, Playing> {
    if ticks > 0 {
        Either::A(data.station)
    } else {
        Either::B(*data)
    }
}

/// What is shown of a station.
pub fn new_station_or_playing(ticks: &usize, data: &Playing) -> (r: Either<SharedStation, Playing>)
    ensures
        r == new_station_or(*ticks, data),
{
    if *ticks > 0 {
        Either::A(data.station.clone())
    } else {
        Either::B(data.clone())
    }
}

/// The state of the screen of a station: the ticks for which the station is
/// still shown by its index and title alone.
pub struct NewStationScope {
    pub ticks: usize,
}

impl Scope for NewStationScope {
    type In = Playing;

    type Out = Either<SharedStation, Playing>;

    open spec fn event_spec(&self, event: &WidgetEvent, data: &Playing, after: &Self) -> bool {
        after.ticks == counted_down(self.ticks)
    }

    open spec fn update_spec(&self, old_data: &Playing, data: &Playing, after: &Self) -> bool {
        after.ticks == new_station_ticks_updated(self.ticks, old_data, data)
    }

    open spec fn reset_spec(&self, after: &Self) -> bool {
        after.ticks == NEW_STATION_TICKS
    }

    open spec fn data_spec(&self, data: &Playing, out: Either<SharedStation, Playing>) -> bool {
        out == new_station_or(self.ticks, data)
    }

    fn event(&mut self, event: &WidgetEvent, data: &Playing) {
        self.ticks = count_down(&self.ticks, event, data);
    }

    fn update(&mut self, old_data: &Playing, data: &Playing) {
        self.ticks = new_station_ticks_after_update(&self.ticks, old_data, data);
    }

    fn reset(&mut self) {
        self.ticks = NEW_STATION_TICKS;
    }

    fn data(&self, data: &Playing) -> (out: Either<SharedStation, Playing>) {
        new_station_or_playing(&self.ticks, data)
    }
}

/// Which screen is shown: that of the station where one is selected, else
/// that of no station.
pub open spec fn screen_variant(state: &PlayerState) -> Either<Playing, PlayerState> {
    match state.current_station {
        Some(station) => Either::A(Playing { station, state: *state }),
        None => Either::B(*state),
    }
}

/// Which screen is shown.
pub fn station_or_none(state: &PlayerState) -> (r: Either<Playing, PlayerState>)
    ensures
        r == screen_variant(state),
{
    match &state.current_station {
        Some(station) => Either::A(Playing { station: station.clone(), state: state.clone() }),
        None => Either::B(state.clone()),
    }
}

/// The lens that is `station_or_none`.
pub struct StationOrNone;

impl Lens<PlayerState> for StationOrNone {
    type Out = Either<Playing, PlayerState>;

    open spec fn gets(&self, data: &PlayerState, out: Either<Playing, PlayerState>) -> bool {
        out == screen_variant(data)
    }

    fn get(&self, data: &PlayerState) -> (out: Either<Playing, PlayerState>) {
        station_or_none(data)
    }
}

/// The screen of a station that was just selected: its index above its
/// title.
pub type NewStationView = WidgetGroup<
    SharedStation,
    LensWidget<SharedStation, Label<Caption>, StationIndexOf>,
    LensWidget<SharedStation, Label<Caption>, StationTitleOf>,
>;

/// The screen of a station: for a while that of a new station, then that of
/// the station as it plays.
pub type SelectedStationView = ScopeWidget<
    Playing,
    EitherWidget<Either<SharedStation, Playing>, NewStationView, StationView>,
    NewStationScope,
>;

/// The screen of the radio.
pub type AppView = LensWidget<
    PlayerState,
    EitherWidget<Either<Playing, PlayerState>, SelectedStationView, NoStationView>,
    StationOrNone,
>;

/// The screen of the radio: the screen of a station where one is selected,
/// and else the screen of no station, on which `ip_address` is shown. Every
/// widget is new and has to be painted.
pub fn app(ip_address: String) -> (r: AppView)
    ensures
        r.inner.a.scope == (NewStationScope { ticks: NEW_STATION_TICKS }),
        r.inner.a.inner.a.0.inner@ == LabelView::fresh(strip(0, 0, 20), TextAlignment::Left),
        r.inner.a.inner.a.1.inner@ == LabelView::fresh(strip(1, 0, 20), TextAlignment::Left),
        r.inner.a.inner.b.0.0.0.inner.a.scope == (TemperatureTurns { shown: false }),
        r.inner.a.inner.b.0.0.0.inner.a.inner@ == LabelView::fresh(
            strip(0, 0, 13),
            TextAlignment::Left,
        ),
        r.inner.a.inner.b.0.0.0.inner.b.inner@ == LabelView::fresh(
            strip(0, 0, 13),
            TextAlignment::Left,
        ),
        r.inner.a.inner.b.0.0.1.inner.scope == (VolumeScope { ticks: 0 }),
        r.inner.a.inner.b.0.0.1.inner.inner.a.0@ == (FixedLabelView {
            string: "Vol",
            segment: strip(0, 13, 4),
            should_paint: true,
        }),
        r.inner.a.inner.b.0.0.1.inner.inner.a.1@ == LabelView::fresh(
            strip(0, 17, 3),
            TextAlignment::Right,
        ),
        r.inner.a.inner.b.0.0.1.inner.inner.b@ == LabelView::fresh(
            strip(0, 13, 7),
            TextAlignment::Right,
        ),
        r.inner.a.inner.b.0.1.inner@ == Marquee::fresh(strip(1, 0, 20)),
        r.inner.a.inner.b.1.inner.a.0.inner@ == Marquee::fresh(strip(2, 0, 20)),
        r.inner.a.inner.b.1.inner.a.1.inner@ == LabelView::fresh(
            strip(3, 0, 20),
            TextAlignment::Left,
        ),
        r.inner.a.inner.b.1.inner.b@ == Marquee::fresh(strip(2, 0, 40)),
        r.inner.b.0.0.0.0.inner.a@ == Marquee::fresh(strip(0, 0, 13)),
        r.inner.b.0.0.0.0.inner.b@ == (FixedLabelView {
            string: ip_address,
            segment: strip(0, 0, 13),
            should_paint: true,
        }),
        r.inner.b.0.0.0.1.inner.scope == (VolumeScope { ticks: 0 }),
        r.inner.b.0.0.0.1.inner.inner.a.0@ == (FixedLabelView {
            string: "Vol",
            segment: strip(0, 13, 4),
            should_paint: true,
        }),
        r.inner.b.0.0.0.1.inner.inner.a.1@ == LabelView::fresh(
            strip(0, 17, 3),
            TextAlignment::Right,
        ),
        r.inner.b.0.0.0.1.inner.inner.b@ == LabelView::fresh(
            strip(0, 13, 7),
            TextAlignment::Right,
        ),
        r.inner.b.0.0.1.inner@ == LabelView::fresh(strip(1, 0, 20), TextAlignment::Left),
        r.inner.b.0.1@ == (GeneratedLabelView::<DateFormatter, LocalDate> {
            segment: strip(2, 0, 20),
            generator: LocalDate,
            previous_value: None,
        }),
        r.inner.b.1@ == (GeneratedLabelView::<TimeFormatter, LocalTime> {
            segment: strip(3, 0, 5),
            generator: LocalTime,
            previous_value: None,
        }),
{
    let new_station_index = Label::new(Segment::from(Line(0))).behind(StationIndexOf);
    let new_station_title = Label::new(Segment::from(Line(1))).behind(StationTitleOf);
    let station_view = EitherWidget::new(
        new_station_index.group(new_station_title),
        station_view(),
    ).with_scope(NewStationScope { ticks: NEW_STATION_TICKS });
    EitherWidget::new(station_view, no_station(ip_address)).behind(StationOrNone)
}

/// A volume that has changed while the player went on with what it did is
/// shown for `VOLUME_TICKS` ticks, whatever the player is doing; after that
/// it is shown only while the player plays.
pub proof fn lemma_new_volume_is_shown_for_a_while(
    scope: VolumeScope,
    old_data: (i32, PipelineState),
    data: (i32, PipelineState),
    updated: VolumeScope,
    first_tick: WidgetEvent,
    ticked: VolumeScope,
    second_tick: WidgetEvent,
    rested: VolumeScope,
)
    requires
        old_data.0 != data.0,
        old_data.1 == data.1,
        scope.update_spec(&old_data, &data, &updated),
        updated.event_spec(&first_tick, &data, &ticked),
        ticked.event_spec(&second_tick, &data, &rested),
    ensures
        updated.ticks == VOLUME_TICKS,
        updated.data_spec(&data, Either::A(data.0)),
        ticked.data_spec(&data, Either::A(data.0)),
        rested.ticks == 0,
        rested.data_spec(
            &data,
            if data.1 == PipelineState::Playing {
                Either::A(data.0)
            } else {
                Either::B(data.1)
            },
        ),
{
}

/// A station that is selected while another is held is taken for a new
/// one, however alike the two are: the screen of the station counts its
/// ticks anew.
pub proof fn lemma_selected_station_is_taken_for_new(
    state: PlayerState,
    held: SharedStation,
    diff: crate::messages::PlayerStateDiff,
    after: PlayerState,
    selected: SharedStation,
    ticks: usize,
)
    requires
        state.consistent(),
        state.current_station == Some(held),
        diff.current_station is ChangedToSome,
        state.applied(diff, after),
        after.current_station == Some(selected),
    ensures
        new_station_ticks_updated(
            ticks,
            &Playing { station: held, state },
            &Playing { station: selected, state: after },
        ) == NEW_STATION_TICKS,
{
}

/// A station that was just selected is shown by its index and title alone
/// for `NEW_STATION_TICKS` ticks, and after that with the state of the
/// player.
pub proof fn lemma_new_station_is_shown_alone_for_a_while(
    scope: NewStationScope,
    old_data: Playing,
    data: Playing,
    updated: NewStationScope,
    first_tick: WidgetEvent,
    ticked: NewStationScope,
    second_tick: WidgetEvent,
    rested: NewStationScope,
)
    requires
        old_data.station.serial != data.station.serial,
        scope.update_spec(&old_data, &data, &updated),
        updated.event_spec(&first_tick, &data, &ticked),
        ticked.event_spec(&second_tick, &data, &rested),
    ensures
        updated.ticks == NEW_STATION_TICKS,
        updated.data_spec(&data, Either::A(data.station)),
        ticked.data_spec(&data, Either::A(data.station)),
        rested.ticks == 0,
        rested.data_spec(&data, Either::B(data)),
{
}

/// The temperature takes turns with the ping: each change of the ping times
/// changes over which of the two is shown, and nothing else does.
pub proof fn lemma_temperature_takes_turns(
    turns: TemperatureTurns,
    old_data: Playing,
    data: Playing,
    updated: TemperatureTurns,
    tick: WidgetEvent,
    ticked: TemperatureTurns,
)
    requires
        turns.update_spec(&old_data, &data, &updated),
        updated.event_spec(&tick, &data, &ticked),
    ensures
        updated.shown == (turns.shown == old_data.state.ping_times.same(&data.state.ping_times)),
        ticked.shown == updated.shown,
{
}

/// What a volume field that was just made writes at its first paint: the
/// word `Vol` and the volume if the player plays, and else what the player
/// is doing; numbers and words stand flush right.
pub open spec fn new_volume_field_writes(segment: Segment, data: (i32, PipelineState)) -> Seq<
    TextOp,
> {
    if data.1 == PipelineState::Playing {
        seq![
            TextOp::Write { segment: segment.head(VOLUME_WORD_WIDTH), text: "Vol"@ },
            TextOp::Write {
                segment: segment.tail(VOLUME_WORD_WIDTH),
                text: right_aligned(
                    signed_decimal(data.0 as int),
                    segment.length - VOLUME_WORD_WIDTH,
                ),
            },
        ]
    } else {
        seq![TextOp::Write { segment, text: right_aligned(data.1.name(), segment.length as int) }]
    }
}

/// A volume field that was just made writes, at its first paint, the word
/// `Vol` and the volume if the player plays, and else what the player is
/// doing.
pub proof fn lemma_new_volume_field_paints(
    view: VolumeView,
    segment: Segment,
    data: (i32, PipelineState),
    after: VolumeView,
    out: Seq<TextOp>,
)
    requires
        segment.length >= VOLUME_WORD_WIDTH,
        view.scope == (VolumeScope { ticks: 0 }),
        view.inner.a.0@ == (FixedLabelView {
            string: "Vol",
            segment: segment.head(VOLUME_WORD_WIDTH),
            should_paint: true,
        }),
        view.inner.a.1@ == LabelView::fresh(segment.tail(VOLUME_WORD_WIDTH), TextAlignment::Right),
        view.inner.b@ == LabelView::fresh(segment, TextAlignment::Right),
        view.paint_spec(&data, &after, out),
    ensures
        out == new_volume_field_writes(segment, data),
{
}

/// The screen of no station, just made for a device of the address
/// `ip_address`, writes at its first paint, while no station has been
/// looked for in vain: the address, the volume field, the ping times, a
/// date and a time of day, each in its place.
pub proof fn lemma_new_screen_of_no_station_paints(
    view: NoStationView,
    ip_address: String,
    state: PlayerState,
    after: NoStationView,
    out: Seq<TextOp>,
)
    requires
        view.0.0.0.0.inner.a@ == Marquee::fresh(strip(0, 0, 13)),
        view.0.0.0.0.inner.b@ == (FixedLabelView {
            string: ip_address,
            segment: strip(0, 0, 13),
            should_paint: true,
        }),
        view.0.0.0.1.inner.scope == (VolumeScope { ticks: 0 }),
        view.0.0.0.1.inner.inner.a.0@ == (FixedLabelView {
            string: "Vol",
            segment: strip(0, 13, 4),
            should_paint: true,
        }),
        view.0.0.0.1.inner.inner.a.1@ == LabelView::fresh(strip(0, 17, 3), TextAlignment::Right),
        view.0.0.0.1.inner.inner.b@ == LabelView::fresh(strip(0, 13, 7), TextAlignment::Right),
        view.0.0.1.inner@ == LabelView::fresh(strip(1, 0, 20), TextAlignment::Left),
        view.0.1@ == (GeneratedLabelView::<DateFormatter, LocalDate> {
            segment: strip(2, 0, 20),
            generator: LocalDate,
            previous_value: None,
        }),
        view.1@ == (GeneratedLabelView::<TimeFormatter, LocalTime> {
            segment: strip(3, 0, 5),
            generator: LocalTime,
            previous_value: None,
        }),
        state.station_not_found is None,
        view.paint_spec(&state, &after, out),
    ensures
        exists|date: DateFormatter, time: TimeFormatter|
            {
                &&& date_text(date.days) is Some
                &&& is_time_of_day(time.seconds, time.nanoseconds)
                &&& out == seq![TextOp::Write { segment: strip(0, 0, 13), text: ip_address@ }]
                    + new_volume_field_writes(
                    strip(0, 13, 7),
                    (state.volume, state.pipeline_state),
                ) + seq![
                    TextOp::Write {
                        segment: strip(1, 0, 20),
                        text: PingDisplay(state.ping_times).text(),
                    },
                    TextOp::Write { segment: strip(2, 0, 20), text: #[trigger] date.text() },
                    TextOp::Write { segment: strip(3, 0, 5), text: #[trigger] time.text() },
                ]
            },
{
    let (upper, time_out) = choose|first: Seq<TextOp>, second: Seq<TextOp>|
        out == first + second && #[trigger] view.paint_both(&state, &after, first, second);
    let (middle, date_out) = choose|first: Seq<TextOp>, second: Seq<TextOp>|
        upper == first + second && #[trigger] view.0.paint_both(&state, &after.0, first, second);
    let (top, ping_out) = choose|first: Seq<TextOp>, second: Seq<TextOp>|
        middle == first + second && #[trigger] view.0.0.paint_both(
            &state,
            &after.0.0,
            first,
            second,
        );
    let (address_out, volume_out) = choose|first: Seq<TextOp>, second: Seq<TextOp>|
        top == first + second && #[trigger] view.0.0.0.paint_both(
            &state,
            &after.0.0.0,
            first,
            second,
        );
    let volume = choose|inner_data: (i32, PipelineState)| #[trigger]
        view.0.0.0.1.through(&state, inner_data, &after.0.0.0.1)
            && view.0.0.0.1.inner.paint_spec(&inner_data, &after.0.0.0.1.inner, volume_out);
    lemma_new_volume_field_paints(
        view.0.0.0.1.inner,
        strip(0, 13, 7),
        volume,
        after.0.0.0.1.inner,
        volume_out,
    );
}

/// The screen of the radio, just made for a device of the address
/// `ip_address`, writes at its first paint what the screen of no station
/// writes, while no station is selected and none has been looked for in
/// vain.
pub proof fn lemma_new_screen_of_the_radio_paints(
    view: AppView,
    ip_address: String,
    state: PlayerState,
    after: AppView,
    out: Seq<TextOp>,
)
    requires
        view.inner.b.0.0.0.0.inner.a@ == Marquee::fresh(strip(0, 0, 13)),
        view.inner.b.0.0.0.0.inner.b@ == (FixedLabelView {
            string: ip_address,
            segment: strip(0, 0, 13),
            should_paint: true,
        }),
        view.inner.b.0.0.0.1.inner.scope == (VolumeScope { ticks: 0 }),
        view.inner.b.0.0.0.1.inner.inner.a.0@ == (FixedLabelView {
            string: "Vol",
            segment: strip(0, 13, 4),
            should_paint: true,
        }),
        view.inner.b.0.0.0.1.inner.inner.a.1@ == LabelView::fresh(
            strip(0, 17, 3),
            TextAlignment::Right,
        ),
        view.inner.b.0.0.0.1.inner.inner.b@ == LabelView::fresh(
            strip(0, 13, 7),
            TextAlignment::Right,
        ),
        view.inner.b.0.0.1.inner@ == LabelView::fresh(strip(1, 0, 20), TextAlignment::Left),
        view.inner.b.0.1@ == (GeneratedLabelView::<DateFormatter, LocalDate> {
            segment: strip(2, 0, 20),
            generator: LocalDate,
            previous_value: None,
        }),
        view.inner.b.1@ == (GeneratedLabelView::<TimeFormatter, LocalTime> {
            segment: strip(3, 0, 5),
            generator: LocalTime,
            previous_value: None,
        }),
        state.current_station is None,
        state.station_not_found is None,
        view.paint_spec(&state, &after, out),
    ensures
        exists|date: DateFormatter, time: TimeFormatter|
            {
                &&& date_text(date.days) is Some
                &&& is_time_of_day(time.seconds, time.nanoseconds)
                &&& out == seq![TextOp::Write { segment: strip(0, 0, 13), text: ip_address@ }]
                    + new_volume_field_writes(
                    strip(0, 13, 7),
                    (state.volume, state.pipeline_state),
                ) + seq![
                    TextOp::Write {
                        segment: strip(1, 0, 20),
                        text: PingDisplay(state.ping_times).text(),
                    },
                    TextOp::Write { segment: strip(2, 0, 20), text: #[trigger] date.text() },
                    TextOp::Write { segment: strip(3, 0, 5), text: #[trigger] time.text() },
                ]
            },
{
    lemma_new_screen_of_no_station_paints(view.inner.b, ip_address, state, after.inner.b, out);
}

/// What the screen of a station, just made, writes at its first paint. The
/// first row is cut after thirteen cells: on the left the pings, or the
/// place in the track for a station that is no list of addresses; on the
/// right the volume field. The second row has the tags of the station. A
/// title of a list of addresses that fits a row has the third row, and the
/// buffer the fourth; any other title has both rows, and the buffer is not
/// written.
pub open spec fn new_station_screen_writes(data: &Playing) -> Seq<TextOp> {
    let status = if data.station.station.source_type == StationType::UrlList {
        ping_and_temperature(false, data).text()
    } else {
        track_position(data).text()
    };
    let upper = seq![TextOp::Write { segment: strip(0, 0, 13), text: status }]
        + new_volume_field_writes(strip(0, 13, 7), (data.state.volume, data.state.pipeline_state))
        + seq![TextOp::Write { segment: strip(1, 0, 20), text: station_tags(data).text() }];
    if data.station.station.source_type == StationType::UrlList && track_title(data).len()
        <= SCREEN_WIDTH {
        upper + seq![
            TextOp::Write { segment: strip(2, 0, 20), text: track_title(data) },
            TextOp::Write {
                segment: strip(3, 0, 20),
                text: crate::text::decimal(data.state.buffering as nat),
            },
        ]
    } else {
        upper + seq![TextOp::Write { segment: strip(2, 0, 40), text: track_title(data) }]
    }
}

/// The screen of a station, just made, writes at its first paint the
/// status, the volume field, the tags and the title of the track, each in
/// its place, and the buffer where the title leaves it a row.
pub proof fn lemma_new_screen_of_a_station_paints(
    view: StationView,
    data: Playing,
    after: StationView,
    out: Seq<TextOp>,
)
    requires
        view.0.0.0.inner.a.scope == (TemperatureTurns { shown: false }),
        view.0.0.0.inner.a.inner@ == LabelView::fresh(strip(0, 0, 13), TextAlignment::Left),
        view.0.0.0.inner.b.inner@ == LabelView::fresh(strip(0, 0, 13), TextAlignment::Left),
        view.0.0.1.inner.scope == (VolumeScope { ticks: 0 }),
        view.0.0.1.inner.inner.a.0@ == (FixedLabelView {
            string: "Vol",
            segment: strip(0, 13, 4),
            should_paint: true,
        }),
        view.0.0.1.inner.inner.a.1@ == LabelView::fresh(strip(0, 17, 3), TextAlignment::Right),
        view.0.0.1.inner.inner.b@ == LabelView::fresh(strip(0, 13, 7), TextAlignment::Right),
        view.0.1.inner@ == Marquee::fresh(strip(1, 0, 20)),
        view.1.inner.a.0.inner@ == Marquee::fresh(strip(2, 0, 20)),
        view.1.inner.a.1.inner@ == LabelView::fresh(strip(3, 0, 20), TextAlignment::Left),
        view.1.inner.b@ == Marquee::fresh(strip(2, 0, 40)),
        view.paint_spec(&data, &after, out),
    ensures
        out == new_station_screen_writes(&data),
{
    let (upper, title_out) = choose|first: Seq<TextOp>, second: Seq<TextOp>|
        out == first + second && #[trigger] view.paint_both(&data, &after, first, second);
    let (top, tags_out) = choose|first: Seq<TextOp>, second: Seq<TextOp>|
        upper == first + second && #[trigger] view.0.paint_both(&data, &after.0, first, second);
    let (status_out, volume_out) = choose|first: Seq<TextOp>, second: Seq<TextOp>|
        top == first + second && #[trigger] view.0.0.paint_both(
            &data,
            &after.0.0,
            first,
            second,
        );
    let volume = choose|inner_data: (i32, PipelineState)| #[trigger]
        view.0.0.1.through(&data, inner_data, &after.0.0.1) && view.0.0.1.inner.paint_spec(
            &inner_data,
            &after.0.0.1.inner,
            volume_out,
        );
    lemma_new_volume_field_paints(
        view.0.0.1.inner,
        strip(0, 13, 7),
        volume,
        after.0.0.1.inner,
        volume_out,
    );
    let tags = choose|inner_data: StationTags| #[trigger]
        view.0.1.through(&data, inner_data, &after.0.1) && view.0.1.inner.paint_spec(
            &inner_data,
            &after.0.1.inner,
            tags_out,
        );
    assert(tags.text().skip(0) =~= tags.text());
    assert(track_title(&data).skip(0) =~= track_title(&data));
}

/// The screen of the radio, just made, writes at its first paint the index
/// and the title of the station that is selected, each in a row of its own,
/// and nothing else.
pub proof fn lemma_new_screen_of_the_radio_paints_a_station(
    view: AppView,
    state: PlayerState,
    station: SharedStation,
    after: AppView,
    out: Seq<TextOp>,
)
    requires
        view.inner.a.scope == (NewStationScope { ticks: NEW_STATION_TICKS }),
        view.inner.a.inner.a.0.inner@ == LabelView::fresh(strip(0, 0, 20), TextAlignment::Left),
        view.inner.a.inner.a.1.inner@ == LabelView::fresh(strip(1, 0, 20), TextAlignment::Left),
        state.current_station == Some(station),
        view.paint_spec(&state, &after, out),
    ensures
        out == seq![
            TextOp::Write {
                segment: strip(0, 0, 20),
                text: match station.station.index {
                    Some(index) => index@,
                    None => Seq::empty(),
                },
            },
            TextOp::Write {
                segment: strip(1, 0, 20),
                text: match station.station.title {
                    Some(title) => title@,
                    None => Seq::empty(),
                },
            },
        ],
{
    let variant = choose|inner_data: Either<Playing, PlayerState>| #[trigger]
        view.through(&state, inner_data, &after) && view.inner.paint_spec(
            &inner_data,
            &after.inner,
            out,
        );
    let copy = choose|copy: Either<Playing, PlayerState>|
        vstd::pervasive::cloned(variant, copy) && #[trigger] view.inner.paint_as(
            copy.either(),
            &after.inner,
            out,
        );
    let playing = Playing { station, state };
    let shown = choose|inner_data: Either<SharedStation, Playing>| #[trigger]
        view.inner.a.paint_through(&playing, inner_data, &after.inner.a, out);
    let shown_copy = choose|copy: Either<SharedStation, Playing>|
        vstd::pervasive::cloned(shown, copy) && #[trigger] view.inner.a.inner.paint_as(
            copy.either(),
            &after.inner.a.inner,
            out,
        );
    let (index_out, title_out) = choose|first: Seq<TextOp>, second: Seq<TextOp>|
        out == first + second && #[trigger] view.inner.a.inner.a.paint_both(
            &station,
            &after.inner.a.inner.a,
            first,
            second,
        );
}

} // verus!
