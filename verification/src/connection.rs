//! The connection to the player: how it is set up, how the messages are cut
//! out of the stream of bytes, and what is shown while there is none and
//! when it has ended.

use vstd::prelude::*;
use vstd::string::StringExecFns;

use crate::clock::{clock_text, is_time_of_day, local_time, TimeFormatter};
use crate::display::{TextDisplay, TextOp};
use crate::event_loop::RunError;
use crate::geometry::{EntireScreen, Line, Segment};
use crate::text::{decimal, decimal_text, pad_left, padded_left, DisplayText};
use crate::{Temperature, TemperatureSource};

verus! {

/// How an attempt to connect to the player ended.
pub enum ConnectOutcome {
    /// The connection stands.
    Connected,
    /// Nobody listens yet.
    Refused,
    /// It failed otherwise; the text says how.
    Failed(String),
}

/// What to do after an attempt to connect.
pub enum ConnectStep {
    /// Go on with the connection.
    Proceed,
    /// Try again after so many milliseconds.
    RetryAfter(u64),
    /// Give up.
    Fail(RunError),
}

/// Number of milliseconds between two attempts to connect.
pub const RETRY_MILLISECONDS: u64 = 100;

/// Decides what to do after an attempt to connect: a player that does not
/// listen yet is tried again after a while, for as long as it takes; any
/// other failure is the end.
pub fn after_connect(outcome: ConnectOutcome) -> (r: ConnectStep)
    ensures
        r == match outcome {
            ConnectOutcome::Connected => ConnectStep::Proceed,
            ConnectOutcome::Refused => ConnectStep::RetryAfter(RETRY_MILLISECONDS),
            ConnectOutcome::Failed(cause) => ConnectStep::Fail(RunError::Connect(cause)),
        },
{
    match outcome {
        ConnectOutcome::Connected => ConnectStep::Proceed,
        ConnectOutcome::Refused => ConnectStep::RetryAfter(RETRY_MILLISECONDS),
        ConnectOutcome::Failed(cause) => ConnectStep::Fail(RunError::Connect(cause)),
    }
}

/// How an attempt to read a given number of bytes ended.
pub enum ReadOutcome {
    /// All the bytes are there.
    Filled,
    /// The stream ended before all the bytes were there.
    EndOfStream,
    /// It failed otherwise; the text says how.
    Failed(String),
}

/// The number that bytes stand for when the first counts most.
pub open spec fn big_endian(bytes: Seq<u8>) -> nat
    decreases bytes.len(),
{
    if bytes.len() == 0 {
        0
    } else {
        big_endian(bytes.drop_last()) * 256 + bytes.last() as nat
    }
}

/// One more than the largest number that `count` bytes can stand for.
spec fn byte_range(count: nat) -> nat
    decreases count,
{
    if count == 0 {
        1
    } else {
        256 * byte_range((count - 1) as nat)
    }
}

/// Bytes stand for a number below the range of their count.
proof fn lemma_big_endian_bound(bytes: Seq<u8>)
    ensures
        big_endian(bytes) < byte_range(bytes.len()),
    decreases bytes.len(),
{
    if bytes.len() > 0 {
        lemma_big_endian_bound(bytes.drop_last());
    }
}

/// The length of the message that follows a length prefix: the prefix read
/// as a number, the first byte counting most.
pub fn frame_length(prefix: &[u8]) -> (r: u64)
    requires
        prefix@.len() <= 8,
    ensures
        r == big_endian(prefix@),
{
    let mut length: u64 = 0;
    let mut i: usize = 0;
    while i < prefix.len()
        invariant
            i <= prefix@.len() <= 8,
            length == big_endian(prefix@.take(i as int)),
        decreases prefix@.len() - i,
    {
        proof {
            let longer = prefix@.take(i + 1);
            assert(longer.drop_last() =~= prefix@.take(i as int));
            lemma_big_endian_bound(longer);
            reveal_with_fuel(byte_range, 9);
        }
        length = length * 256 + prefix[i] as u64;
        i += 1;
    }
    assert(prefix@.take(i as int) =~= prefix@);
    length
}

/// What to do after the attempt to read a length prefix.
pub enum FrameStep {
    /// Read a message of so many bytes.
    ReadMessage(u64),
    /// The player has closed the connection: there is no further message.
    Closed,
    /// Give up.
    Fail(RunError),
}

/// Decides what to do after the attempt to read a length prefix: a stream
/// that ends where a message would begin has ended well; any other failure
/// is the end.
pub fn after_prefix(outcome: ReadOutcome, prefix: &[u8]) -> (r: FrameStep)
    requires
        prefix@.len() <= 8,
    ensures
        r == match outcome {
            ReadOutcome::Filled => FrameStep::ReadMessage(big_endian(prefix@) as u64),
            ReadOutcome::EndOfStream => FrameStep::Closed,
            ReadOutcome::Failed(cause) => FrameStep::Fail(RunError::Read(cause)),
        },
{
    match outcome {
        ReadOutcome::Filled => FrameStep::ReadMessage(frame_length(prefix)),
        ReadOutcome::EndOfStream => FrameStep::Closed,
        ReadOutcome::Failed(cause) => FrameStep::Fail(RunError::Read(cause)),
    }
}

/// Decides what to do after the attempt to read a message: a stream that
/// ends within a message has failed, and `broken` tells how.
pub fn after_message(outcome: ReadOutcome, broken: String) -> (r: Result<(), RunError>)
    ensures
        r == match outcome {
            ReadOutcome::Filled => Ok::<(), RunError>(()),
            ReadOutcome::EndOfStream => Err(RunError::Read(broken)),
            ReadOutcome::Failed(cause) => Err(RunError::Read(cause)),
        },
{
    match outcome {
        ReadOutcome::Filled => Ok(()),
        ReadOutcome::EndOfStream => Err(RunError::Read(broken)),
        ReadOutcome::Failed(cause) => Err(RunError::Read(cause)),
    }
}

/// The request to write `text` to a whole row.
pub open spec fn line_write(row: u8, text: Seq<char>) -> TextOp {
    TextOp::Write { segment: Line(row).segment(), text }
}

/// Shows that there is no connection to the player yet: the screen is
/// cleared, and its first three rows tell who the device is and what it is
/// waiting for.
pub fn show_no_connection<D: TextDisplay>(display: &mut D, ip_address: &str)
    ensures
        final(display).written() == old(display).written() + seq![
            TextOp::Clear,
            line_write(0, ip_address@),
            line_write(1, "No connection to"@),
            line_write(2, "internal program"@),
        ],
{
    display.clear();
    display.write_to(Segment::from(Line(0)), ip_address);
    display.write_to(Segment::from(Line(1)), "No connection to");
    display.write_to(Segment::from(Line(2)), "internal program");
}

/// The text that tells the temperature: the number flush right in three
/// columns.
pub open spec fn temperature_text(temperature: Temperature) -> Seq<char> {
    "CPU Temp "@ + padded_left(decimal(temperature.0 as nat), 3) + "C"@
}

/// Number of cells of the last row that the temperature takes while there is
/// no connection; the time takes the rest.
pub const TEMPERATURE_WIDTH: u8 = 15;

/// Brings the last row up to date while there is no connection: the
/// temperature as it is now in its first fifteen cells, the time of day as
/// it is now, in hours and minutes, in the rest.
pub fn refresh_no_connection<T: TemperatureSource, D: TextDisplay>(
    temperature_source: &mut T,
    display: &mut D,
) -> (r: (Temperature, TimeFormatter))
    ensures
        final(display).written() == old(display).written() + seq![
            TextOp::Write {
                segment: Segment {
                    position: crate::geometry::CursorPosition { row: 3, column: 0 },
                    length: TEMPERATURE_WIDTH,
                },
                text: temperature_text(r.0),
            },
            TextOp::Write {
                segment: Segment {
                    position: crate::geometry::CursorPosition { row: 3, column: TEMPERATURE_WIDTH },
                    length: 5,
                },
                text: clock_text(r.1.seconds),
            },
        ],
        is_time_of_day(r.1.seconds, r.1.nanoseconds),
{
    let (temperature_segment, time_segment) = Line(3).split(TEMPERATURE_WIDTH);
    let temperature = temperature_source.get_temperature();
    let number = decimal_text(temperature.0 as u64);
    let mut text = String::from_str("CPU Temp ");
    text.append(pad_left(number.as_str(), 3).as_str());
    text.append("C");
    display.write_to(temperature_segment, text.as_str());
    let time = local_time();
    display.write_to(time_segment, time.to_text().as_str());
    (temperature, time)
}

/// What the screen is asked to show when the event loop has ended: after a
/// clear, a farewell where it has ended well, and else the text of the
/// error, across the whole screen.
pub open spec fn outcome_ops(outcome: Result<(), RunError>) -> Seq<TextOp> {
    match outcome {
        Ok(_) => seq![
            TextOp::Clear,
            line_write(0, "Ending screen driver"@),
            line_write(1, "Computer not shut"@),
            line_write(2, "down"@),
            line_write(3, ""@),
        ],
        Err(error) => seq![
            TextOp::Clear,
            TextOp::Write { segment: EntireScreen.segment(), text: error.message_text() },
        ],
    }
}

/// Shows how the event loop has ended.
pub fn show_outcome<D: TextDisplay>(display: &mut D, outcome: &Result<(), RunError>)
    ensures
        final(display).written() == old(display).written() + outcome_ops(*outcome),
{
    display.clear();
    match outcome {
        Ok(_) => {
            display.write_to(Segment::from(Line(0)), "Ending screen driver");
            display.write_to(Segment::from(Line(1)), "Computer not shut");
            display.write_to(Segment::from(Line(2)), "down");
            display.write_to(Segment::from(Line(3)), "");
        },
        Err(error) => {
            let message = error.message();
            display.write_to(Segment::from(EntireScreen), message.as_str());
        },
    }
}

} // verus!
