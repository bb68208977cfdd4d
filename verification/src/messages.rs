//! What the player tells the screen: its stations, its state as far as it
//! has changed, and what went wrong.

use std::sync::Arc;
use vstd::prelude::*;

use crate::text::{Chars, DisplayText};

verus! {

/// The text inside an optional string.
pub open spec fn text_of(string: Option<String>) -> Option<Seq<char>> {
    match string {
        Some(string) => Some(string@),
        None => None,
    }
}

/// Whether two optional strings hold the same text.
pub fn same_text(a: &Option<String>, b: &Option<String>) -> (r: bool)
    ensures
        r == (text_of(*a) == text_of(*b)),
{
    match (a, b) {
        (Some(a), Some(b)) => *a == *b,
        (None, None) => true,
        _ => false,
    }
}

/// What the player's pipeline is doing.
#[derive(Clone, Copy, Debug)]
pub enum PipelineState {
    VoidPending,
    Null,
    Ready,
    Paused,
    Playing,
}

impl PartialEq for PipelineState {
    fn eq(&self, other: &Self) -> (r: bool) {
        match (self, other) {
            (PipelineState::VoidPending, PipelineState::VoidPending) => true,
            (PipelineState::Null, PipelineState::Null) => true,
            (PipelineState::Ready, PipelineState::Ready) => true,
            (PipelineState::Paused, PipelineState::Paused) => true,
            (PipelineState::Playing, PipelineState::Playing) => true,
            _ => false,
        }
    }
}

impl Eq for PipelineState {

}

impl vstd::std_specs::cmp::PartialEqSpecImpl for PipelineState {
    open spec fn obeys_eq_spec() -> bool {
        true
    }

    open spec fn eq_spec(&self, other: &Self) -> bool {
        *self == *other
    }
}

impl PipelineState {
    /// The name of the state.
    pub open spec fn name(self) -> Seq<char> {
        match self {
            PipelineState::VoidPending => "VoidPending"@,
            PipelineState::Null => "Null"@,
            PipelineState::Ready => "Ready"@,
            PipelineState::Paused => "Paused"@,
            PipelineState::Playing => "Playing"@,
        }
    }
}

impl DisplayText for PipelineState {
    open spec fn text(&self) -> Chars {
        self.name()
    }

    fn to_text(&self) -> (r: String) {
        let name = match self {
            PipelineState::VoidPending => "VoidPending",
            PipelineState::Null => "Null",
            PipelineState::Ready => "Ready",
            PipelineState::Paused => "Paused",
            PipelineState::Playing => "Playing",
        };
        name.to_owned()
    }
}

/// Where a station's tracks come from.
#[derive(Clone, Copy, Debug, PartialEq, Eq, Structural)]
pub enum StationType {
    UrlList,
    Samba,
    CD,
    Usb,
}

/// One track of a station.
pub struct Track {
    pub title: Option<String>,
    pub album: Option<String>,
    pub artist: Option<String>,
    /// Whether the track is an announcement rather than a piece of the
    /// programme.
    pub is_notification: bool,
}

/// A station and its tracks.
pub struct Station {
    pub index: Option<String>,
    pub title: Option<String>,
    pub source_type: StationType,
    pub tracks: Vec<Track>,
}

/// What a track says of itself while it plays.
pub struct TrackTags {
    pub title: Option<String>,
    pub organisation: Option<String>,
    pub artist: Option<String>,
    pub album: Option<String>,
}

impl Clone for TrackTags {
    fn clone(&self) -> (r: Self)
        ensures
            r == *self,
    {
        TrackTags {
            title: self.title.clone(),
            organisation: self.organisation.clone(),
            artist: self.artist.clone(),
            album: self.album.clone(),
        }
    }
}

/// A length of time: whole seconds and the nanoseconds beyond them.
#[derive(Clone, Copy, Debug, PartialEq, Eq, Structural)]
pub struct Span {
    pub seconds: u64,
    pub nanoseconds: u32,
}

/// How long a ping took, and the two texts that show it: the short one for
/// the narrow field beside the volume, the long one for a line of its own.
pub struct PingTime {
    pub span: Span,
    pub short_text: String,
    pub long_text: String,
}

impl Clone for PingTime {
    fn clone(&self) -> (r: Self)
        ensures
            r == *self,
    {
        PingTime {
            span: self.span,
            short_text: self.short_text.clone(),
            long_text: self.long_text.clone(),
        }
    }
}

impl PartialEq for PingTime {
    fn eq(&self, other: &Self) -> (r: bool) {
        self.span == other.span && self.short_text == other.short_text && self.long_text
            == other.long_text
    }
}

impl PingTime {
    /// Whether two times are the same span, shown by the same texts.
    pub open spec fn same(&self, other: &Self) -> bool {
        &&& self.span == other.span
        &&& self.short_text@ == other.short_text@
        &&& self.long_text@ == other.long_text@
    }
}

impl vstd::std_specs::cmp::PartialEqSpecImpl for PingTime {
    open spec fn obeys_eq_spec() -> bool {
        true
    }

    open spec fn eq_spec(&self, other: &Self) -> bool {
        self.same(other)
    }
}

/// Why a ping got no answer.
#[derive(Clone, Copy, Debug, PartialEq, Eq, Structural)]
pub enum PingError {
    Dns,
    FailedToSendICMP,
    FailedToRecieveICMP,
    Timeout,
    DestinationUnreachable,
}

/// Which of the two hosts was pinged.
#[derive(Clone, Copy, Debug, PartialEq, Eq, Structural)]
pub enum PingTarget {
    Gateway,
    Remote,
}

/// How a ping of one host ended.
pub enum PingOutcome {
    Answered(PingTime),
    Failed(PingError),
}

impl Clone for PingOutcome {
    fn clone(&self) -> (r: Self)
        ensures
            r == *self,
    {
        match self {
            PingOutcome::Answered(time) => PingOutcome::Answered(time.clone()),
            PingOutcome::Failed(error) => PingOutcome::Failed(*error),
        }
    }
}

impl PartialEq for PingOutcome {
    fn eq(&self, other: &Self) -> (r: bool) {
        match (self, other) {
            (PingOutcome::Answered(a), PingOutcome::Answered(b)) => *a == *b,
            (PingOutcome::Failed(a), PingOutcome::Failed(b)) => *a == *b,
            _ => false,
        }
    }
}

impl PingOutcome {
    /// Whether two pings ended in the same way.
    pub open spec fn same(&self, other: &Self) -> bool {
        match (self, other) {
            (PingOutcome::Answered(a), PingOutcome::Answered(b)) => a.same(b),
            (PingOutcome::Failed(a), PingOutcome::Failed(b)) => a == b,
            _ => false,
        }
    }
}

impl vstd::std_specs::cmp::PartialEqSpecImpl for PingOutcome {
    open spec fn obeys_eq_spec() -> bool {
        true
    }

    open spec fn eq_spec(&self, other: &Self) -> bool {
        self.same(other)
    }
}

/// What is known of the way to the station: nothing yet, or how the pings
/// of the gateway and of the remote host went.
pub enum PingTimes {
    NoPings,
    BadUrl,
    Gateway(PingOutcome),
    GatewayAndRemote { gateway_ping: PingTime, remote_ping: PingOutcome, latest: PingTarget },
    FinishedPingingRemote { gateway_ping: PingTime },
}

impl Clone for PingTimes {
    fn clone(&self) -> (r: Self)
        ensures
            r == *self,
    {
        match self {
            PingTimes::NoPings => PingTimes::NoPings,
            PingTimes::BadUrl => PingTimes::BadUrl,
            PingTimes::Gateway(outcome) => PingTimes::Gateway(outcome.clone()),
            PingTimes::GatewayAndRemote { gateway_ping, remote_ping, latest } => {
                PingTimes::GatewayAndRemote {
                    gateway_ping: gateway_ping.clone(),
                    remote_ping: remote_ping.clone(),
                    latest: *latest,
                }
            },
            PingTimes::FinishedPingingRemote { gateway_ping } => {
                PingTimes::FinishedPingingRemote { gateway_ping: gateway_ping.clone() }
            },
        }
    }
}

impl PartialEq for PingTimes {
    fn eq(&self, other: &Self) -> (r: bool) {
        match (self, other) {
            (PingTimes::NoPings, PingTimes::NoPings) => true,
            (PingTimes::BadUrl, PingTimes::BadUrl) => true,
            (PingTimes::Gateway(a), PingTimes::Gateway(b)) => *a == *b,
            (
                PingTimes::GatewayAndRemote { gateway_ping: ga, remote_ping: ra, latest: la },
                PingTimes::GatewayAndRemote { gateway_ping: gb, remote_ping: rb, latest: lb },
            ) => *ga == *gb && *ra == *rb && *la == *lb,
            (
                PingTimes::FinishedPingingRemote { gateway_ping: a },
                PingTimes::FinishedPingingRemote { gateway_ping: b },
            ) => *a == *b,
            _ => false,
        }
    }
}

impl PingTimes {
    /// Whether the same is known of the way to the station.
    pub open spec fn same(&self, other: &Self) -> bool {
        match (self, other) {
            (PingTimes::NoPings, PingTimes::NoPings) => true,
            (PingTimes::BadUrl, PingTimes::BadUrl) => true,
            (PingTimes::Gateway(a), PingTimes::Gateway(b)) => a.same(b),
            (
                PingTimes::GatewayAndRemote { gateway_ping: ga, remote_ping: ra, latest: la },
                PingTimes::GatewayAndRemote { gateway_ping: gb, remote_ping: rb, latest: lb },
            ) => ga.same(gb) && ra.same(rb) && la == lb,
            (
                PingTimes::FinishedPingingRemote { gateway_ping: a },
                PingTimes::FinishedPingingRemote { gateway_ping: b },
            ) => a.same(b),
            _ => false,
        }
    }
}

impl vstd::std_specs::cmp::PartialEqSpecImpl for PingTimes {
    open spec fn obeys_eq_spec() -> bool {
        true
    }

    open spec fn eq_spec(&self, other: &Self) -> bool {
        self.same(other)
    }
}

/// A change of something that may be there or not.
pub enum OptionDiff<T> {
    /// It is as it was.
    NoChange,
    /// It is gone.
    ChangedToNone,
    /// It is there, and is this.
    ChangedToSome(T),
}

impl<T> OptionDiff<T> {
    /// The change as an option: `None` where nothing has changed, else the
    /// new value.
    pub open spec fn option(self) -> Option<Option<T>> {
        match self {
            OptionDiff::NoChange => None,
            OptionDiff::ChangedToNone => Some(None),
            OptionDiff::ChangedToSome(value) => Some(Some(value)),
        }
    }

    /// The change as an option: `None` where nothing has changed, else the
    /// new value.
    pub fn into_option(self) -> (r: Option<Option<T>>)
        ensures
            r == self.option(),
    {
        match self {
            OptionDiff::NoChange => None,
            OptionDiff::ChangedToNone => Some(None),
            OptionDiff::ChangedToSome(value) => Some(Some(value)),
        }
    }

    /// Whether there is a change.
    pub fn has_changed(&self) -> (r: bool)
        ensures
            r == !(self is NoChange),
    {
        match self {
            OptionDiff::NoChange => false,
            _ => true,
        }
    }
}

/// What has changed of the player's state; a field that is `None` or
/// `NoChange` stands for a part that is as it was.
pub struct PlayerStateDiff {
    pub pipeline_state: Option<PipelineState>,
    pub current_station: OptionDiff<Station>,
    pub current_track_index: Option<usize>,
    pub current_track_tags: OptionDiff<TrackTags>,
    pub volume: Option<i32>,
    pub buffering: Option<u8>,
    pub track_duration: OptionDiff<Span>,
    pub track_position: OptionDiff<Span>,
    pub ping_times: Option<PingTimes>,
}

impl PlayerStateDiff {
    /// The change that changes nothing.
    pub fn unchanged() -> (r: Self)
        ensures
            r == (PlayerStateDiff {
                pipeline_state: None,
                current_station: OptionDiff::NoChange,
                current_track_index: None,
                current_track_tags: OptionDiff::NoChange,
                volume: None,
                buffering: None,
                track_duration: OptionDiff::NoChange,
                track_position: OptionDiff::NoChange,
                ping_times: None,
            }),
    {
        PlayerStateDiff {
            pipeline_state: None,
            current_station: OptionDiff::NoChange,
            current_track_index: None,
            current_track_tags: OptionDiff::NoChange,
            volume: None,
            buffering: None,
            track_duration: OptionDiff::NoChange,
            track_position: OptionDiff::NoChange,
            ping_times: None,
        }
    }
}

/// Something that went wrong in the player.
pub enum PlayerError {
    /// No station has the index that was asked for.
    StationNotFound { index: String },
    /// Anything else, with the text that describes it.
    Other { text: String },
}

/// A message from the player's log.
pub enum LogMessage {
    Error(PlayerError),
}

/// What arrives from the player.
pub enum RadioEvent {
    /// The version of the protocol that the player speaks.
    ProtocolVersion(String),
    /// The player's state has changed.
    PlayerStateChanged(PlayerStateDiff),
    /// The player has logged something.
    LogMessage(LogMessage),
}

/// `Arc::clone` makes another pointer to the same value.
#[verifier::external_body]
pub(crate) fn share<T>(shared: &Arc<T>) -> (r: Arc<T>)
    ensures
        r == *shared,
{
    Arc::clone(shared)
}

} // verus!
