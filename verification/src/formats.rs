//! The texts that the player's state is shown by.

use vstd::prelude::*;
use vstd::string::StringExecFns;

use crate::messages::{same_text, text_of, PingError, PingOutcome, PingTarget, PingTime, PingTimes, Span};
use crate::text::{Chars, DisplayText, decimal, decimal_text};
use crate::Temperature;

verus! {

/// A text to show as it is. Two captions are equal if their texts are, so
/// that a label of a caption is known to be painted again when the text has
/// changed, and only then.
pub struct Caption {
    pub text: String,
}

impl Clone for Caption {
    fn clone(&self) -> (r: Self)
        ensures
            r == *self,
    {
        Caption { text: self.text.clone() }
    }
}

impl PartialEq for Caption {
    fn eq(&self, other: &Self) -> (r: bool) {
        self.text == other.text
    }
}

impl vstd::std_specs::cmp::PartialEqSpecImpl for Caption {
    open spec fn obeys_eq_spec() -> bool {
        true
    }

    open spec fn eq_spec(&self, other: &Self) -> bool {
        self.text@ == other.text@
    }
}

impl DisplayText for Caption {
    open spec fn text(&self) -> Chars {
        self.text@
    }

    fn to_text(&self) -> (r: String) {
        self.text.clone()
    }
}

/// Texts put one after the other, with `sep` between each two.
pub open spec fn joined(parts: Seq<Seq<char>>, sep: Seq<char>) -> Seq<char>
    decreases parts.len(),
{
    if parts.len() == 0 {
        seq![]
    } else if parts.len() == 1 {
        parts[0]
    } else {
        joined(parts.drop_last(), sep) + sep + parts.last()
    }
}

/// The tags that say something: those that are there and are not the word
/// `unknown`.
pub open spec fn known_tags(tags: Seq<Option<Seq<char>>>) -> Seq<Seq<char>>
    decreases tags.len(),
{
    if tags.len() == 0 {
        seq![]
    } else {
        let before = known_tags(tags.drop_last());
        match tags.last() {
            Some(tag) => if tag == "unknown"@ {
                before
            } else {
                before.push(tag)
            },
            None => before,
        }
    }
}

/// The texts of tags.
pub open spec fn tag_texts(tags: Seq<Option<String>>) -> Seq<Option<Seq<char>>> {
    Seq::new(tags.len(), |i: int| text_of(tags[i]))
}

/// Tags of a track, shown one after the other as far as they say something.
pub struct ConcatenatedTrackTags {
    pub sep: String,
    pub tags: Vec<Option<String>>,
}

impl DisplayText for ConcatenatedTrackTags {
    open spec fn text(&self) -> Chars {
        joined(known_tags(tag_texts(self.tags@)), self.sep@)
    }

    fn to_text(&self) -> (r: String) {
        let unknown = String::from_str("unknown");
        let mut text = String::new();
        let mut first = true;
        let mut i: usize = 0;
        while i < self.tags.len()
            invariant
                i <= self.tags.len(),
                unknown@ == "unknown"@,
                text@ == joined(known_tags(tag_texts(self.tags@).take(i as int)), self.sep@),
                first == (known_tags(tag_texts(self.tags@).take(i as int)).len() == 0),
            decreases self.tags.len() - i,
        {
            proof {
                assert(tag_texts(self.tags@).take(i + 1).drop_last() =~= tag_texts(
                    self.tags@,
                ).take(i as int));
            }
            let ghost before = known_tags(tag_texts(self.tags@).take(i as int));
            match &self.tags[i] {
                Some(tag) => {
                    if !(*tag == unknown) {
                        if !first {
                            text.append(self.sep.as_str());
                        }
                        text.append(tag.as_str());
                        first = false;
                        proof {
                            assert(before.push(tag@).drop_last() =~= before);
                        }
                    }
                },
                None => {},
            }
            i += 1;
        }
        assert(tag_texts(self.tags@).take(i as int) =~= tag_texts(self.tags@));
        text
    }
}

/// The words for the reason why a ping got no answer.
pub open spec fn ping_error_text(error: PingError) -> Seq<char> {
    match error {
        PingError::Dns => "DNS error"@,
        PingError::FailedToSendICMP => "Tx fail"@,
        PingError::FailedToRecieveICMP => "Rx fail"@,
        PingError::Timeout => "No reply"@,
        PingError::DestinationUnreachable => "Unreachable"@,
    }
}

/// The words for the reason why a ping got no answer.
pub fn ping_error_words(error: PingError) -> (r: &'static str)
    ensures
        r@ == ping_error_text(error),
{
    match error {
        PingError::Dns => "DNS error",
        PingError::FailedToSendICMP => "Tx fail",
        PingError::FailedToRecieveICMP => "Rx fail",
        PingError::Timeout => "No reply",
        PingError::DestinationUnreachable => "Unreachable",
    }
}

/// A ping time in the narrow field: the name of the host, a space, the short
/// text of the time and `ms`.
pub open spec fn short_ping_duration_text(prefix: Seq<char>, ping: PingTime) -> Seq<char> {
    prefix + " "@ + ping.short_text@ + "ms"@
}

/// A ping time in the narrow field.
pub fn display_short_ping_duration(prefix: &str, ping: &PingTime) -> (r: String)
    ensures
        r@ == short_ping_duration_text(prefix@, *ping),
{
    let mut text = String::from_str(prefix);
    text.append(" ");
    text.append(ping.short_text.as_str());
    text.append("ms");
    text
}

/// A failed ping in the narrow field: the name of the host, a space and the
/// reason.
pub open spec fn short_ping_error_text(prefix: Seq<char>, error: PingError) -> Seq<char> {
    prefix + " "@ + ping_error_text(error)
}

/// A failed ping in the narrow field.
pub fn display_short_ping_error(prefix: &str, error: PingError) -> (r: String)
    ensures
        r@ == short_ping_error_text(prefix@, error),
{
    let mut text = String::from_str(prefix);
    text.append(" ");
    text.append(ping_error_words(error));
    text
}

/// What the narrow field beside the volume shows: the latest ping, or, once
/// the remote host has been pinged, the gateway's time and the temperature
/// in turn.
pub struct PingAndTemperatureDisplay {
    pub ping_times: PingTimes,
    pub temperature: Temperature,
    pub display_temperature: bool,
}

impl PartialEq for PingAndTemperatureDisplay {
    fn eq(&self, other: &Self) -> (r: bool) {
        self.ping_times == other.ping_times && self.temperature.0 == other.temperature.0
            && self.display_temperature == other.display_temperature
    }
}

impl vstd::std_specs::cmp::PartialEqSpecImpl for PingAndTemperatureDisplay {
    open spec fn obeys_eq_spec() -> bool {
        true
    }

    open spec fn eq_spec(&self, other: &Self) -> bool {
        &&& self.ping_times.same(&other.ping_times)
        &&& self.temperature == other.temperature
        &&& self.display_temperature == other.display_temperature
    }
}

impl DisplayText for PingAndTemperatureDisplay {
    open spec fn text(&self) -> Chars {
        match self.ping_times {
            PingTimes::NoPings => "No Ping Times"@,
            PingTimes::BadUrl => "Bad URL"@,
            PingTimes::Gateway(PingOutcome::Answered(gateway_ping)) => short_ping_duration_text(
                "LPing"@,
                gateway_ping,
            ),
            PingTimes::Gateway(PingOutcome::Failed(gateway_error)) => short_ping_error_text(
                "LPing"@,
                gateway_error,
            ),
            PingTimes::GatewayAndRemote { gateway_ping, remote_ping, latest } => match latest {
                PingTarget::Gateway => short_ping_duration_text("LPing"@, gateway_ping),
                PingTarget::Remote => match remote_ping {
                    PingOutcome::Answered(remote_ping) => short_ping_duration_text(
                        "RPing"@,
                        remote_ping,
                    ),
                    PingOutcome::Failed(remote_error) => short_ping_error_text(
                        "RPing"@,
                        remote_error,
                    ),
                },
            },
            PingTimes::FinishedPingingRemote { gateway_ping } => if self.display_temperature {
                "CPU Temp "@ + decimal(self.temperature.0 as nat) + "C"@
            } else {
                short_ping_duration_text("LPing"@, gateway_ping)
            },
        }
    }

    fn to_text(&self) -> (r: String) {
        match &self.ping_times {
            PingTimes::NoPings => String::from_str("No Ping Times"),
            PingTimes::BadUrl => String::from_str("Bad URL"),
            PingTimes::Gateway(PingOutcome::Answered(gateway_ping)) => {
                display_short_ping_duration("LPing", gateway_ping)
            },
            PingTimes::Gateway(PingOutcome::Failed(gateway_error)) => {
                display_short_ping_error("LPing", *gateway_error)
            },
            PingTimes::GatewayAndRemote { gateway_ping, remote_ping, latest } => match latest {
                PingTarget::Gateway => display_short_ping_duration("LPing", gateway_ping),
                PingTarget::Remote => match remote_ping {
                    PingOutcome::Answered(remote_ping) => display_short_ping_duration(
                        "RPing",
                        remote_ping,
                    ),
                    PingOutcome::Failed(remote_error) => display_short_ping_error(
                        "RPing",
                        *remote_error,
                    ),
                },
            },
            PingTimes::FinishedPingingRemote { gateway_ping } => {
                if self.display_temperature {
                    let mut text = String::from_str("CPU Temp ");
                    text.append(decimal_text(self.temperature.0 as u64).as_str());
                    text.append("C");
                    text
                } else {
                    display_short_ping_duration("LPing", gateway_ping)
                }
            },
        }
    }
}

/// Number of columns that a number takes, reckoned at four for every number
/// of four digits or more.
pub open spec fn digits_space(n: int) -> int {
    if n <= 9 {
        1
    } else if n <= 99 {
        2
    } else if n <= 999 {
        3
    } else {
        4
    }
}

/// Number of columns that a number takes, reckoned at four for every number
/// of four digits or more.
pub fn space_required_for_digits(n: usize) -> (r: usize)
    ensures
        r == digits_space(n as int),
{
    if n <= 9 {
        1
    } else if n <= 99 {
        2
    } else if n <= 999 {
        3
    } else {
        4
    }
}

/// A length of time that may not be known, shown in whole seconds, or as a
/// question mark.
pub struct OptionDurationDisplay(pub Option<Span>);

impl OptionDurationDisplay {
    /// Number of columns that the text is reckoned to take.
    pub open spec fn space(&self) -> int {
        match self.0 {
            Some(duration) => digits_space((duration.seconds as usize) as int),
            None => 1,
        }
    }

    /// Number of columns that the text is reckoned to take.
    pub fn space_required(&self) -> (r: usize)
        ensures
            r == self.space(),
    {
        match self.0 {
            Some(duration) => space_required_for_digits(
                #[verifier::truncate]
                (duration.seconds as usize),
            ),
            None => 1,
        }
    }
}

impl DisplayText for OptionDurationDisplay {
    open spec fn text(&self) -> Chars {
        match self.0 {
            Some(duration) => decimal(duration.seconds as nat),
            None => "?"@,
        }
    }

    fn to_text(&self) -> (r: String) {
        match self.0 {
            Some(duration) => decimal_text(duration.seconds),
            None => String::from_str("?"),
        }
    }
}

/// Where the player is in its station: the number of the track, and how far
/// into the track it is, of how long.
pub struct TrackPositionDisplay {
    pub track_index: usize,
    pub track_position: Option<Span>,
    pub track_duration: Option<Span>,
}

impl PartialEq for TrackPositionDisplay {
    fn eq(&self, other: &Self) -> (r: bool) {
        self.track_index == other.track_index && self.track_position == other.track_position
            && self.track_duration == other.track_duration
    }
}

impl Eq for TrackPositionDisplay {

}

impl vstd::std_specs::cmp::PartialEqSpecImpl for TrackPositionDisplay {
    open spec fn obeys_eq_spec() -> bool {
        true
    }

    open spec fn eq_spec(&self, other: &Self) -> bool {
        *self == *other
    }
}

impl TrackPositionDisplay {
    /// Number of columns that the three numbers are reckoned to take.
    pub open spec fn space(&self) -> int {
        (if self.track_index < 10 {
            1int
        } else {
            2int
        }) + OptionDurationDisplay(self.track_position).space() + OptionDurationDisplay(
            self.track_duration,
        ).space()
    }
}

impl DisplayText for TrackPositionDisplay {
    /// The three numbers with as many of the words and spaces between them
    /// as there is room for; the length of the track is left out where
    /// there is none.
    open spec fn text(&self) -> Chars {
        let index = decimal(self.track_index as nat);
        let position = OptionDurationDisplay(self.track_position).text();
        let duration = OptionDurationDisplay(self.track_duration).text();
        let space = self.space();
        if space <= 7 {
            index + ", "@ + position + " of "@ + duration
        } else if space == 8 {
            index + ","@ + position + " of "@ + duration
        } else if space == 9 {
            index + ","@ + position + "of "@ + duration
        } else if space == 10 {
            index + ", "@ + position + "of"@ + duration
        } else {
            index + ", "@ + position
        }
    }

    fn to_text(&self) -> (r: String) {
        let track_index_space_required: usize = if self.track_index < 10 {
            1
        } else {
            2
        };
        let track_position = OptionDurationDisplay(self.track_position);
        let track_duration = OptionDurationDisplay(self.track_duration);
        let total_space_required = track_index_space_required + track_position.space_required()
            + track_duration.space_required();
        let position = track_position.to_text();
        let duration = track_duration.to_text();
        let mut text = decimal_text(self.track_index as u64);
        if total_space_required <= 7 {
            text.append(", ");
            text.append(position.as_str());
            text.append(" of ");
            text.append(duration.as_str());
        } else if total_space_required == 8 {
            text.append(",");
            text.append(position.as_str());
            text.append(" of ");
            text.append(duration.as_str());
        } else if total_space_required == 9 {
            text.append(",");
            text.append(position.as_str());
            text.append("of ");
            text.append(duration.as_str());
        } else if total_space_required == 10 {
            text.append(", ");
            text.append(position.as_str());
            text.append("of");
            text.append(duration.as_str());
        } else {
            text.append(", ");
            text.append(position.as_str());
        }
        text
    }
}

/// What a station tells of itself and of the track that plays, by the kind
/// of station.
pub enum StationTags {
    UrlList { current_track_index: Option<usize>, station_title: Option<String> },
    Samba { station_title: Option<String>, artist: Option<String>, album: Option<String> },
    CD { artist: Option<String>, album: Option<String> },
    Usb { artist: Option<String>, album: Option<String> },
}

impl Clone for StationTags {
    fn clone(&self) -> (r: Self)
        ensures
            r == *self,
    {
        match self {
            StationTags::UrlList { current_track_index, station_title } => StationTags::UrlList {
                current_track_index: *current_track_index,
                station_title: station_title.clone(),
            },
            StationTags::Samba { station_title, artist, album } => StationTags::Samba {
                station_title: station_title.clone(),
                artist: artist.clone(),
                album: album.clone(),
            },
            StationTags::CD { artist, album } => StationTags::CD {
                artist: artist.clone(),
                album: album.clone(),
            },
            StationTags::Usb { artist, album } => StationTags::Usb {
                artist: artist.clone(),
                album: album.clone(),
            },
        }
    }
}

impl StationTags {
    /// Whether two stations tell the same.
    pub open spec fn same(&self, other: &Self) -> bool {
        match (self, other) {
            (
                StationTags::UrlList { current_track_index: ia, station_title: ta },
                StationTags::UrlList { current_track_index: ib, station_title: tb },
            ) => ia == ib && text_of(*ta) == text_of(*tb),
            (
                StationTags::Samba { station_title: ta, artist: aa, album: la },
                StationTags::Samba { station_title: tb, artist: ab, album: lb },
            ) => text_of(*ta) == text_of(*tb) && text_of(*aa) == text_of(*ab) && text_of(*la)
                == text_of(*lb),
            (
                StationTags::CD { artist: aa, album: la },
                StationTags::CD { artist: ab, album: lb },
            ) => text_of(*aa) == text_of(*ab) && text_of(*la) == text_of(*lb),
            (
                StationTags::Usb { artist: aa, album: la },
                StationTags::Usb { artist: ab, album: lb },
            ) => text_of(*aa) == text_of(*ab) && text_of(*la) == text_of(*lb),
            _ => false,
        }
    }

    /// The tags in the order in which they are shown; the number of the
    /// track is shown in decimal digits.
    pub open spec fn tags(&self) -> Seq<Option<Seq<char>>> {
        match self {
            StationTags::UrlList { current_track_index, station_title } => seq![
                match current_track_index {
                    Some(index) => Some(decimal(*index as nat)),
                    None => None,
                },
                text_of(*station_title),
            ],
            StationTags::Samba { station_title, artist, album } => seq![
                text_of(*station_title),
                text_of(*artist),
                text_of(*album),
            ],
            StationTags::CD { artist, album } => seq![text_of(*artist), text_of(*album)],
            StationTags::Usb { artist, album } => seq![text_of(*artist), text_of(*album)],
        }
    }
}

impl PartialEq for StationTags {
    fn eq(&self, other: &Self) -> (r: bool) {
        match (self, other) {
            (
                StationTags::UrlList { current_track_index: ia, station_title: ta },
                StationTags::UrlList { current_track_index: ib, station_title: tb },
            ) => *ia == *ib && same_text(ta, tb),
            (
                StationTags::Samba { station_title: ta, artist: aa, album: la },
                StationTags::Samba { station_title: tb, artist: ab, album: lb },
            ) => same_text(ta, tb) && same_text(aa, ab) && same_text(la, lb),
            (
                StationTags::CD { artist: aa, album: la },
                StationTags::CD { artist: ab, album: lb },
            ) => same_text(aa, ab) && same_text(la, lb),
            (
                StationTags::Usb { artist: aa, album: la },
                StationTags::Usb { artist: ab, album: lb },
            ) => same_text(aa, ab) && same_text(la, lb),
            _ => false,
        }
    }
}

impl vstd::std_specs::cmp::PartialEqSpecImpl for StationTags {
    open spec fn obeys_eq_spec() -> bool {
        true
    }

    open spec fn eq_spec(&self, other: &Self) -> bool {
        self.same(other)
    }
}

impl DisplayText for StationTags {
    /// The tags that say something, with a comma and a space between each
    /// two.
    open spec fn text(&self) -> Chars {
        joined(known_tags(self.tags()), ", "@)
    }

    fn to_text(&self) -> (r: String) {
        let mut tags: Vec<Option<String>> = Vec::new();
        match self {
            StationTags::UrlList { current_track_index, station_title } => {
                let index_text = match current_track_index {
                    Some(index) => Some(decimal_text(*index as u64)),
                    None => None,
                };
                tags.push(index_text);
                tags.push(station_title.clone());
            },
            StationTags::Samba { station_title, artist, album } => {
                tags.push(station_title.clone());
                tags.push(artist.clone());
                tags.push(album.clone());
            },
            StationTags::CD { artist, album } => {
                tags.push(artist.clone());
                tags.push(album.clone());
            },
            StationTags::Usb { artist, album } => {
                tags.push(artist.clone());
                tags.push(album.clone());
            },
        }
        let all = ConcatenatedTrackTags { sep: String::from_str(", "), tags };
        assert(tag_texts(all.tags@) =~= self.tags());
        all.to_text()
    }
}

/// The message that no station has the index that was asked for.
pub struct StationNotFoundMessage(pub String);

impl Clone for StationNotFoundMessage {
    fn clone(&self) -> (r: Self)
        ensures
            r == *self,
    {
        StationNotFoundMessage(self.0.clone())
    }
}

impl PartialEq for StationNotFoundMessage {
    fn eq(&self, other: &Self) -> (r: bool) {
        self.0 == other.0
    }
}

impl Eq for StationNotFoundMessage {

}

impl vstd::std_specs::cmp::PartialEqSpecImpl for StationNotFoundMessage {
    open spec fn obeys_eq_spec() -> bool {
        true
    }

    open spec fn eq_spec(&self, other: &Self) -> bool {
        self.0@ == other.0@
    }
}

impl DisplayText for StationNotFoundMessage {
    open spec fn text(&self) -> Chars {
        "No Station "@ + self.0@
    }

    fn to_text(&self) -> (r: String) {
        String::from_str("No Station ").concat(self.0.as_str())
    }
}

/// A ping time on a line of its own: the name of the host, a colon, the
/// long text of the time and `ms`.
pub open spec fn ping_duration_text(prefix: Seq<char>, ping: PingTime) -> Seq<char> {
    prefix + ": "@ + ping.long_text@ + "ms"@
}

/// A ping time on a line of its own.
pub fn display_ping_duration(prefix: &str, ping: &PingTime) -> (r: String)
    ensures
        r@ == ping_duration_text(prefix@, *ping),
{
    let mut text = String::from_str(prefix);
    text.append(": ");
    text.append(ping.long_text.as_str());
    text.append("ms");
    text
}

/// A failed ping on a line of its own: the name of the host, a colon and
/// the reason.
pub open spec fn ping_error_line(prefix: Seq<char>, error: PingError) -> Seq<char> {
    prefix + ": "@ + ping_error_text(error)
}

/// A failed ping on a line of its own.
pub fn display_ping_error(prefix: &str, error: PingError) -> (r: String)
    ensures
        r@ == ping_error_line(prefix@, error),
{
    let mut text = String::from_str(prefix);
    text.append(": ");
    text.append(ping_error_words(error));
    text
}

/// The latest ping, on a line of its own.
pub struct PingDisplay(pub PingTimes);

impl PartialEq for PingDisplay {
    fn eq(&self, other: &Self) -> (r: bool) {
        self.0 == other.0
    }
}

impl vstd::std_specs::cmp::PartialEqSpecImpl for PingDisplay {
    open spec fn obeys_eq_spec() -> bool {
        true
    }

    open spec fn eq_spec(&self, other: &Self) -> bool {
        self.0.same(&other.0)
    }
}

impl DisplayText for PingDisplay {
    open spec fn text(&self) -> Chars {
        match self.0 {
            PingTimes::NoPings => "No Ping Times"@,
            PingTimes::BadUrl => "Bad URL"@,
            PingTimes::Gateway(PingOutcome::Answered(gateway_ping)) => ping_duration_text(
                "Gateway"@,
                gateway_ping,
            ),
            PingTimes::Gateway(PingOutcome::Failed(gateway_error)) => ping_error_line(
                "Local"@,
                gateway_error,
            ),
            PingTimes::GatewayAndRemote { gateway_ping, remote_ping, latest } => match latest {
                PingTarget::Gateway => ping_duration_text("Gateway"@, gateway_ping),
                PingTarget::Remote => match remote_ping {
                    PingOutcome::Answered(remote_ping) => ping_duration_text(
                        "Remote"@,
                        remote_ping,
                    ),
                    PingOutcome::Failed(remote_error) => ping_error_line("Remote"@, remote_error),
                },
            },
            PingTimes::FinishedPingingRemote { gateway_ping } => ping_duration_text(
                "Gateway"@,
                gateway_ping,
            ),
        }
    }

    fn to_text(&self) -> (r: String) {
        match &self.0 {
            PingTimes::NoPings => String::from_str("No Ping Times"),
            PingTimes::BadUrl => String::from_str("Bad URL"),
            PingTimes::Gateway(PingOutcome::Answered(gateway_ping)) => display_ping_duration(
                "Gateway",
                gateway_ping,
            ),
            PingTimes::Gateway(PingOutcome::Failed(gateway_error)) => display_ping_error(
                "Local",
                *gateway_error,
            ),
            PingTimes::GatewayAndRemote { gateway_ping, remote_ping, latest } => match latest {
                PingTarget::Gateway => display_ping_duration("Gateway", gateway_ping),
                PingTarget::Remote => match remote_ping {
                    PingOutcome::Answered(remote_ping) => display_ping_duration(
                        "Remote",
                        remote_ping,
                    ),
                    PingOutcome::Failed(remote_error) => display_ping_error(
                        "Remote",
                        *remote_error,
                    ),
                },
            },
            PingTimes::FinishedPingingRemote { gateway_ping } => display_ping_duration(
                "Gateway",
                gateway_ping,
            ),
        }
    }
}

} // verus!
