//! One turn of the event loop: what an event makes of the state and of the
//! screen. Waiting for the next event is left to the caller.

use std::time::Instant;
use vstd::prelude::*;
use vstd::string::StringExecFns;

use crate::display::{TextDisplay, TextOp};
use crate::messages::{LogMessage, OptionDiff, PlayerStateDiff, RadioEvent};
use crate::state::PlayerState;
use crate::widgets::{Widget, WidgetEvent};
use crate::{Temperature, TemperatureSource};

verus! {

/// What the event loop is woken by.
pub enum Event {
    /// Something has arrived from the player, or reading it has failed.
    RradioEvent(Result<RadioEvent, RunError>),
    /// A second has passed.
    TickEvent(Instant),
    /// The player has closed the connection.
    Done,
}

/// Why the event loop has given up. The texts say what the cause was.
pub enum RunError {
    /// No connection to the player could be made.
    Connect(String),
    /// The connection broke while a message was read.
    Read(String),
    /// A message could not be understood.
    Parse(String),
    /// The player speaks another version of the protocol than the screen.
    BadVersion { player: String, screen: String },
}

impl RunError {
    /// The text that tells of the error.
    pub open spec fn message_text(self) -> Seq<char> {
        match self {
            RunError::Connect(cause) => "Failed to connect to rradio: "@ + cause@,
            RunError::Read(cause) => "Reading from TCP: "@ + cause@,
            RunError::Parse(cause) => "Parsing msgpack: "@ + cause@,
            RunError::BadVersion { player, screen } => "Bad rradio version. rradio: "@ + player@
                + ", screen: "@ + screen@,
        }
    }

    /// The text that tells of the error.
    pub fn message(&self) -> (r: String)
        ensures
            r@ == self.message_text(),
    {
        match self {
            RunError::Connect(cause) => String::from_str("Failed to connect to rradio: ").concat(
                cause.as_str(),
            ),
            RunError::Read(cause) => String::from_str("Reading from TCP: ").concat(cause.as_str()),
            RunError::Parse(cause) => String::from_str("Parsing msgpack: ").concat(cause.as_str()),
            RunError::BadVersion { player, screen } => {
                let mut message = String::from_str("Bad rradio version. rradio: ");
                message.append(player.as_str());
                message.append(", screen: ");
                message.append(screen.as_str());
                message
            },
        }
    }
}

/// What the event loop does after an event.
#[derive(Clone, Copy, Debug, PartialEq, Eq, Structural)]
pub enum Flow {
    /// Wait for the next event.
    Wait,
    /// Leave the loop: the player is gone.
    Stop,
}

/// Whether `after` is `view` painted with `data`, on a display that had
/// been asked `before` and has now been asked `now`.
pub open spec fn painted<W: Widget>(
    view: W,
    data: &W::Data,
    after: W,
    before: Seq<TextOp>,
    now: Seq<TextOp>,
) -> bool {
    &&& now == before + now.skip(before.len() as int)
    &&& view.paint_spec(data, &after, now.skip(before.len() as int))
}

/// The steps that a change of the player's state is taken in: `applied` is
/// the state with the change, `updated` the view once it is told of the
/// step from the old state to the new one, `forced` the view before it is
/// painted.
pub open spec fn state_change_steps<W: Widget<Data = PlayerState>>(
    state: PlayerState,
    view: W,
    written: Seq<TextOp>,
    diff: PlayerStateDiff,
    applied: PlayerState,
    updated: W,
    forced: W,
    new_state: PlayerState,
    new_view: W,
    new_written: Seq<TextOp>,
) -> bool {
    &&& state.applied(diff, applied)
    &&& new_state == if diff.ping_times is Some {
        PlayerState { temperature: new_state.temperature, ..applied }
    } else {
        applied
    }
    &&& view.update_spec(&state, &new_state, &updated)
    &&& if diff.current_station is NoChange {
        forced == updated && painted(updated, &new_state, new_view, written, new_written)
    } else {
        &&& updated.force_repaint_spec(&new_state, &forced)
        &&& painted(forced, &new_state, new_view, written.push(TextOp::Clear), new_written)
    }
}

/// What a change of the player's state makes of the state, the view and
/// the screen. The change is taken into the state, and with it a new
/// temperature if the change names ping times. The view is told of the step
/// from the old state to the new one. Where the change names the station,
/// the view is forced to repaint and the screen is cleared. Then the view is
/// painted.
pub open spec fn state_changed<W: Widget<Data = PlayerState>>(
    state: PlayerState,
    view: W,
    written: Seq<TextOp>,
    diff: PlayerStateDiff,
    new_state: PlayerState,
    new_view: W,
    new_written: Seq<TextOp>,
) -> bool {
    exists|applied: PlayerState, updated: W, forced: W| #[trigger]
        state_change_steps(
            state,
            view,
            written,
            diff,
            applied,
            updated,
            forced,
            new_state,
            new_view,
            new_written,
        )
}

/// Takes a change of the player's state into the state, and brings the
/// screen up to date.
pub fn on_state_changed<W, T, D>(
    state: &mut PlayerState,
    view: &mut W,
    temperature_source: &mut T,
    display: &mut D,
    diff: PlayerStateDiff,
) where W: Widget<Data = PlayerState>, T: TemperatureSource, D: TextDisplay
    requires
        old(state).consistent(),
    ensures
        final(state).consistent(),
        state_changed(
            *old(state),
            *old(view),
            old(display).written(),
            diff,
            *final(state),
            *final(view),
            final(display).written(),
        ),
{
    let should_clear_screen = diff.current_station.has_changed();
    let should_update_temperature = diff.ping_times.is_some();
    let ghost difference = diff;
    let applied = state.clone().apply_diff(diff);
    let ghost applied_state = applied;
    let new_state = if should_update_temperature {
        applied.with_new_temperature(temperature_source.get_temperature())
    } else {
        applied
    };
    view.update(state, &new_state);
    let ghost updated = *view;
    *state = new_state;
    if should_clear_screen {
        view.force_repaint(state);
        display.clear();
    }
    let ghost forced = *view;
    let ghost cleared = display.written();
    view.paint(state, display);
    assert(state_change_steps(
        *old(state),
        *old(view),
        old(display).written(),
        difference,
        applied_state,
        updated,
        forced,
        *state,
        *view,
        display.written(),
    ));
}

/// What a message from the player's log makes of the state, the view and
/// the screen: the message is taken into the state, the view is told of the
/// step from the old state to the new one and is painted.
pub open spec fn message_logged<W: Widget<Data = PlayerState>>(
    state: PlayerState,
    view: W,
    written: Seq<TextOp>,
    message: LogMessage,
    new_state: PlayerState,
    new_view: W,
    new_written: Seq<TextOp>,
) -> bool {
    &&& new_state == state.logged(message)
    &&& exists|updated: W|
        {
            &&& #[trigger] view.update_spec(&state, &new_state, &updated)
            &&& painted(updated, &new_state, new_view, written, new_written)
        }
}

/// Takes a message from the player's log into the state, and brings the
/// screen up to date.
pub fn on_log_message<W, D>(
    state: &mut PlayerState,
    view: &mut W,
    display: &mut D,
    message: LogMessage,
) where W: Widget<Data = PlayerState>, D: TextDisplay
    requires
        old(state).consistent(),
    ensures
        final(state).consistent(),
        message_logged(
            *old(state),
            *old(view),
            old(display).written(),
            message,
            *final(state),
            *final(view),
            final(display).written(),
        ),
{
    let new_state = state.clone().handle_log_message(message);
    view.update(state, &new_state);
    let ghost updated = *view;
    *state = new_state;
    view.paint(state, display);
}

/// What a tick makes of the view and the screen: the view is told of the
/// tick and is painted.
pub open spec fn ticked<W: Widget<Data = PlayerState>>(
    state: PlayerState,
    view: W,
    written: Seq<TextOp>,
    time: Instant,
    new_view: W,
    new_written: Seq<TextOp>,
) -> bool {
    exists|told: W|
        {
            &&& #[trigger] view.event_spec(&WidgetEvent::Tick(time), &state, &told)
            &&& painted(told, &state, new_view, written, new_written)
        }
}

/// Tells the view that a second has passed, and brings the screen up to
/// date.
pub fn on_tick<W, D>(state: &PlayerState, view: &mut W, display: &mut D, time: Instant) where
    W: Widget<Data = PlayerState>,
    D: TextDisplay,

    ensures
        ticked(
            *state,
            *old(view),
            old(display).written(),
            time,
            *final(view),
            final(display).written(),
        ),
{
    let event = WidgetEvent::Tick(time);
    view.event(&event, state);
    let ghost told = *view;
    view.paint(state, display);
}

/// Handles one event. What was read amiss and a player that speaks another
/// version of the protocol end the loop with an error, and the end of the
/// connection ends the loop; none of these touches state, view or screen.
/// Every other event is taken into the state and the view, as far as it
/// changes them, and the view is painted once: a player with the right
/// version changes nothing, and the view is painted as it is.
pub fn handle_event<W, T, D>(
    state: &mut PlayerState,
    view: &mut W,
    temperature_source: &mut T,
    display: &mut D,
    expected_version: &str,
    event: Event,
) -> (r: Result<Flow, RunError>) where
    W: Widget<Data = PlayerState>,
    T: TemperatureSource,
    D: TextDisplay,

    requires
        old(state).consistent(),
    ensures
        final(state).consistent(),
        match event {
            Event::RradioEvent(Err(error)) => {
                &&& r == Err::<Flow, RunError>(error)
                &&& *final(state) == *old(state)
                &&& *final(view) == *old(view)
                &&& *final(display) == *old(display)
            },
            Event::RradioEvent(Ok(RadioEvent::ProtocolVersion(version))) => {
                &&& *final(state) == *old(state)
                &&& if version@ == expected_version@ {
                    &&& r == Ok::<Flow, RunError>(Flow::Wait)
                    &&& painted(
                        *old(view),
                        old(state),
                        *final(view),
                        old(display).written(),
                        final(display).written(),
                    )
                } else {
                    &&& r matches Err(RunError::BadVersion { player, screen })
                    &&& player == version
                    &&& screen@ == expected_version@
                    &&& *final(view) == *old(view)
                    &&& *final(display) == *old(display)
                }
            },
            Event::RradioEvent(Ok(RadioEvent::PlayerStateChanged(diff))) => {
                &&& r == Ok::<Flow, RunError>(Flow::Wait)
                &&& state_changed(
                    *old(state),
                    *old(view),
                    old(display).written(),
                    diff,
                    *final(state),
                    *final(view),
                    final(display).written(),
                )
            },
            Event::RradioEvent(Ok(RadioEvent::LogMessage(message))) => {
                &&& r == Ok::<Flow, RunError>(Flow::Wait)
                &&& message_logged(
                    *old(state),
                    *old(view),
                    old(display).written(),
                    message,
                    *final(state),
                    *final(view),
                    final(display).written(),
                )
            },
            Event::TickEvent(time) => {
                &&& r == Ok::<Flow, RunError>(Flow::Wait)
                &&& *final(state) == *old(state)
                &&& ticked(
                    *old(state),
                    *old(view),
                    old(display).written(),
                    time,
                    *final(view),
                    final(display).written(),
                )
            },
            Event::Done => {
                &&& r == Ok::<Flow, RunError>(Flow::Stop)
                &&& *final(state) == *old(state)
                &&& *final(view) == *old(view)
                &&& *final(display) == *old(display)
            },
        },
{
    match event {
        Event::RradioEvent(Err(error)) => Err(error),
        Event::RradioEvent(Ok(RadioEvent::ProtocolVersion(version))) => {
            let expected = expected_version.to_owned();
            if version == expected {
                view.paint(state, display);
                Ok(Flow::Wait)
            } else {
                Err(RunError::BadVersion { player: version, screen: expected })
            }
        },
        Event::RradioEvent(Ok(RadioEvent::PlayerStateChanged(diff))) => {
            on_state_changed(state, view, temperature_source, display, diff);
            Ok(Flow::Wait)
        },
        Event::RradioEvent(Ok(RadioEvent::LogMessage(message))) => {
            on_log_message(state, view, display, message);
            Ok(Flow::Wait)
        },
        Event::TickEvent(time) => {
            on_tick(state, view, display, time);
            Ok(Flow::Wait)
        },
        Event::Done => Ok(Flow::Stop),
    }
}

} // verus!
